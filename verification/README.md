# ytextract

A library for getting YouTube metadata: videos, their streams, playlists and
the items YouTube shows beside a video.

## Layout

- `src/` is the library, verified with Verus. It holds the model of the
  documents that YouTube's innertube API serves and every rule that reads
  them: identifiers and their URLs, subscriber counts, lengths and dates, the
  classification of the errors YouTube reports, the requests sent to the API,
  the signature cipher of the player and the address of a stream, and the
  walks over lists that come in parts (related items, playlist videos).
  Each public function states what it returns in its `ensures`; the laws of
  the library (identifier round trips, URL prefixes, cipher involutions, the
  order in which walks hand items out, ...) are public proof functions whose
  names start with `law_`.
- `app/` is the network side: a `Client` that sends the requests with
  `reqwest`, reads the JSON replies with `serde` into copies of the document
  types, converts them into the library's types and drives the walks,
  fetching the next part of a list when the library asks for it.
- `tests/` exercises the library on concrete documents.
