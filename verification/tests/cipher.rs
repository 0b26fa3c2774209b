use ytextract::player::{
    player_url, Cipher, CipherPlan, Error, Player, ReverseCipher, SpliceCipher, SwapCipher,
};

const SCRIPT: &str = r#"var Ab={xy:function(a){a.reverse()},sp:function(a,b){a.splice(0,b)},sw:function(a,b){var c=a[0];a[0]=a[b%a.length];a[b%a.length]=c}};Zt=function(a){a=a.split("");Ab.xy(a,7);Ab.sp(a,2);Ab.sw(a,3);return a.join("")};"#;

#[test]
fn plan_from_script_runs() {
    let plan = CipherPlan::from_body(SCRIPT).unwrap();
    assert_eq!(plan.run("abcdefgh".to_string()), "cedfba");
}

#[test]
fn player_from_script() {
    let player = Player::from_script(SCRIPT).unwrap();
    assert_eq!(player.cipher().run("0123456789".to_string()), "46573210");
}

#[test]
fn plan_not_found() {
    assert!(matches!(CipherPlan::from_body("var x = 1;"), Err(Error::CipherPlanNotFound)));
}

#[test]
fn cipher_function_not_found() {
    let script = r#"var Ab={xy:function(a){a.reverse()}};Zt=function(a){a=a.split("");Ab.zz(a,7);return a.join("")};"#;
    match CipherPlan::from_body(script) {
        Err(Error::CipherFunctionNotFound(name)) => assert_eq!(name, "zz"),
        _ => panic!("expected a missing function"),
    }
}

#[test]
fn unknown_cipher() {
    let script = r#"var Ab={pu:function(a,b){a.push(b)}};Zt=function(a){a=a.split("");Ab.pu(a,7);return a.join("")};"#;
    match CipherPlan::from_body(script) {
        Err(Error::UnknownCipher { function_name, body }) => {
            assert_eq!(function_name, "pu");
            assert_eq!(body, "a.push(b)");
        }
        _ => panic!("expected an unknown cipher"),
    }
}

#[test]
fn unreadable_statement() {
    let script = r#"var Ab={xy:function(a){a.reverse()}};Zt=function(a){a=a.split("");Ab.xy(a);return a.join("")};"#;
    match CipherPlan::from_body(script) {
        Err(Error::Statement(s)) => assert_eq!(s, "Ab.xy(a)"),
        _ => panic!("expected an unreadable statement"),
    }
}

#[test]
fn empty_plan_keeps_signature() {
    let script = r#"Zt=function(a){a=a.split("");return a.join("")};"#;
    let plan = CipherPlan::from_body(script).unwrap();
    assert_eq!(plan.run("abc".to_string()), "abc");
}

#[test]
fn single_ciphers() {
    let reverse = CipherPlan::new(vec![Cipher::Reverse(ReverseCipher)]);
    assert_eq!(reverse.run("abc".to_string()), "cba");
    let splice = CipherPlan::new(vec![Cipher::Splice(SpliceCipher { index: 2 })]);
    assert_eq!(splice.run("abcde".to_string()), "cde");
    let swap = CipherPlan::new(vec![Cipher::Swap(SwapCipher { index: 2 })]);
    assert_eq!(swap.run("abcde".to_string()), "cbade");
}

#[test]
fn reverse_twice_is_identity() {
    let plan = CipherPlan::new(vec![Cipher::Reverse(ReverseCipher), Cipher::Reverse(ReverseCipher)]);
    assert_eq!(plan.run("signature".to_string()), "signature");
}

#[test]
fn swap_twice_is_identity() {
    let plan = CipherPlan::new(vec![
        Cipher::Swap(SwapCipher { index: 4 }),
        Cipher::Swap(SwapCipher { index: 4 }),
    ]);
    assert_eq!(plan.run("signature".to_string()), "signature");
}

#[test]
fn plans_run_in_order() {
    let both = CipherPlan::new(vec![
        Cipher::Splice(SpliceCipher { index: 1 }),
        Cipher::Reverse(ReverseCipher),
    ]);
    let first = CipherPlan::new(vec![Cipher::Splice(SpliceCipher { index: 1 })]);
    let second = CipherPlan::new(vec![Cipher::Reverse(ReverseCipher)]);
    assert_eq!(both.run("abcd".to_string()), second.run(first.run("abcd".to_string())));
}

#[test]
fn can_run_checks_indices() {
    let splice = CipherPlan::new(vec![Cipher::Splice(SpliceCipher { index: 5 })]);
    assert!(splice.can_run("abcde"));
    assert!(!splice.can_run("abcd"));
    let swap = CipherPlan::new(vec![Cipher::Swap(SwapCipher { index: 0 })]);
    assert!(!swap.can_run(""));
    assert!(swap.can_run("a"));
}

#[test]
fn player_address() {
    assert_eq!(
        player_url("/s/player/0d2b10a8/player_ias.vflset/en_US/base.js"),
        "https://youtube.com/s/player/0d2b10a8/player_ias.vflset/en_US/base.js"
    );
}
