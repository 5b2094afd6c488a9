//! The fixed user-facing texts and the confirmation-answer reading.

use doit::text;

#[test]
fn destroy_prompt_is_the_fixed_warning() {
    assert_eq!(
        text::destroy_prompt(),
        "Are you sure you want to destroy 🔥 (and murder 🔪) this container and all of it's happy friends? "
    );
}

#[test]
fn yes_answers_accept() {
    assert_eq!(text::interpret_answer("y"), Some(true));
    assert_eq!(text::interpret_answer("yes"), Some(true));
}

#[test]
fn no_answers_decline() {
    assert_eq!(text::interpret_answer("n"), Some(false));
    assert_eq!(text::interpret_answer("no"), Some(false));
}

#[test]
fn empty_input_takes_the_default_no() {
    assert_eq!(text::interpret_answer(""), Some(false));
}

#[test]
fn anything_else_is_not_an_answer() {
    assert_eq!(text::interpret_answer("maybe"), None);
    assert_eq!(text::interpret_answer("Y"), None);
    assert_eq!(text::interpret_answer("yess"), None);
}

#[test]
fn success_banner_names_the_container() {
    assert_eq!(
        text::success_banner("mybox"),
        "✨✨✨ Container created and ready: mybox ✨✨✨"
    );
}

#[test]
fn deleted_banner_names_the_container() {
    assert_eq!(
        text::deleted_banner("mybox"),
        "Deleted container mybox 🔥🔥🔥"
    );
}

#[test]
fn work_banner_names_the_container() {
    assert_eq!(
        text::work_banner("mybox"),
        "Look at you busy bee, let's get you ready working on ✨ mybox ✨"
    );
}

#[test]
fn creating_banner_names_the_core_count() {
    assert_eq!(
        text::creating_banner("8"),
        "Creating a new container from scratch, with my bare 8 cores!"
    );
}
