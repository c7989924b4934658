use telety::syntax::{ModPath, Visibility};
use telety::visibility::{super_visibility, visibility_macro_export};

fn restricted(in_token: bool, idents: &[&str]) -> Visibility {
    Visibility::Restricted {
        in_token,
        path: ModPath { leading_colon: false, idents: idents.iter().map(|s| s.to_string()).collect() },
    }
}

#[test]
fn syn_util_test() {
    assert_eq!(super_visibility(&restricted(true, &["self"])), restricted(true, &["super"]));
    assert_eq!(super_visibility(&restricted(false, &["self"])), restricted(false, &["super"]));
    assert_eq!(super_visibility(&restricted(false, &["super"])), restricted(true, &["super", "super"]));
    assert_eq!(super_visibility(&restricted(true, &["self", "asdf"])), restricted(true, &["super", "asdf"]));
    assert_eq!(super_visibility(&restricted(true, &["crate", "asdf"])), restricted(true, &["crate", "asdf"]));
    assert_eq!(super_visibility(&restricted(false, &["crate"])), restricted(false, &["crate"]));
}

#[test]
fn super_visibility_of_public_and_private() {
    assert_eq!(super_visibility(&Visibility::Public), Visibility::Public);
    assert_eq!(super_visibility(&Visibility::Inherited), restricted(false, &["super"]));
    assert_eq!(super_visibility(&restricted(true, &["super", "a"])), restricted(true, &["super", "super", "a"]));
    assert!(visibility_macro_export(&Visibility::Public));
    assert!(!visibility_macro_export(&restricted(false, &["crate"])));
}
