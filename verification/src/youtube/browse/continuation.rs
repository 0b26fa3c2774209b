//! The rest of a list, as the browse endpoint serves it.

use vstd::prelude::*;
use super::playlist::PlaylistItem;

verus! {

/// The rest of a list.
pub struct Root {
    /// The single action that appends the items.
    pub on_response_received_actions: (OnResponseReceivedAction,),
}

impl Root {
    /// The items appended to the list, in order.
    pub fn into_videos(self) -> (v: Vec<PlaylistItem>)
        ensures
            v@ == self.on_response_received_actions.0.append_continuation_items_action.continuation_items@,
    {
        self.on_response_received_actions.0.append_continuation_items_action.continuation_items
    }
}

/// An action on the list.
pub struct OnResponseReceivedAction {
    /// The action that appends items.
    pub append_continuation_items_action: AppendContinuationItemsAction,
}

/// The action that appends items to the list.
pub struct AppendContinuationItemsAction {
    /// The items, in order.
    pub continuation_items: Vec<PlaylistItem>,
}

} // verus!
