use pointers_threads::th1::th1g::state1_oop_non_oop::{Post_Any, Post_Non, Post_OOP};

#[test]
fn oop_post_state_pattern_walkthrough() {
    let mut p = Post_OOP::new();
    p.review();
    p.approve();
    assert_eq!(p.get(), "");
    p.insert("testing what we got");
    p.append(". I think we got it");
    assert_eq!(p.get(), "");
    p.review();
    assert_eq!(p.get(), "");
    p.approve();
    assert_eq!(p.get(), "testing what we got. I think we got it");
    p.append(". Success!!! ");
    assert_eq!(p.get(), "");
    p.approve();
    assert_eq!(p.get(), "");
    p.review();
    p.approve();
    assert_eq!(p.get(), "testing what we got. I think we got it. Success!!! ");
}

#[test]
fn oop_post_review_withdraws_approval() {
    let mut p = Post_OOP::new();
    p.insert("text");
    p.review();
    p.approve();
    assert_eq!(p.get(), "text");
    p.review();
    assert_eq!(p.get(), "");
    p.approve();
    assert_eq!(p.get(), "text");
}

#[test]
fn oop_post_approve_twice_and_review_twice() {
    let mut p = Post_OOP::new();
    p.insert("a");
    p.review();
    p.review();
    p.approve();
    p.approve();
    assert_eq!(p.get(), "a");
}

#[test]
fn oop_post_insert_replaces_content() {
    let mut p = Post_OOP::new();
    p.insert("first");
    p.insert("second");
    p.review();
    p.approve();
    assert_eq!(p.get(), "second");
}

#[test]
fn any_post_state_pattern_walkthrough() {
    let mut p = Post_Any::new();
    p.review();
    p.approve();
    assert_eq!(p.get(), "");
    p.insert("testing what we got");
    p.append(". I think we got it");
    assert_eq!(p.get(), "");
    p.review();
    assert_eq!(p.get(), "");
    p.approve();
    assert_eq!(p.get(), "testing what we got. I think we got it");
    p.append(". Success!!! ");
    assert_eq!(p.get(), "");
    p.approve();
    assert_eq!(p.get(), "");
    p.review();
    p.approve();
    assert_eq!(p.get(), "testing what we got. I think we got it. Success!!! ");
}

#[test]
fn any_post_stays_approved_under_review() {
    let mut p = Post_Any::new();
    p.insert("kept");
    p.review();
    p.approve();
    p.review();
    assert_eq!(p.get(), "kept");
    p.approve();
    assert_eq!(p.get(), "kept");
}

#[test]
fn any_post_approve_without_review_shows_nothing() {
    let mut p = Post_Any::new();
    p.insert("draft");
    p.approve();
    assert_eq!(p.get(), "");
}

#[test]
fn typed_post_chain() {
    let p = Post_Non::new()
        .add_content("Chain Val")
        .review()
        .append_content(". appended")
        .review()
        .approve();
    assert_eq!(p.get(), "Chain Val. appended");
}

#[test]
fn typed_post_type_pattern_walkthrough() {
    let p = Post_Non::new();
    let mut p = p.add_content("Now type pattern testing to see what we got");
    p.append_content(". This is appended");
    let p = p.review();
    let p = p.append_content(". This is again added after review");
    let p = p.review();
    let p = p.approve();
    assert_eq!(
        p.get(),
        "Now type pattern testing to see what we got. This is appended. This is again added after review"
    );
    let p = p.append_content(". After approved");
    let p = p.review();
    let p = p.approve();
    assert_eq!(
        p.get(),
        "Now type pattern testing to see what we got. This is appended. This is again added after review. After approved"
    );
}

#[test]
fn typed_post_add_content_replaces() {
    let mut p = Post_Non::new().add_content("old");
    p.add_content("new");
    let p = p.review().add_content("newer").review().approve();
    assert_eq!(p.get(), "newer");
    let p = p.add_content("last").review().approve();
    assert_eq!(p.get(), "last");
}
