use wm_core::text::split_names;

fn split(data: &str) -> Vec<String> {
    split_names(data)
}

#[test]
fn split_of_empty_string_is_one_empty_field() {
    assert_eq!(split(""), vec![String::new()]);
}

#[test]
fn split_single_name() {
    assert_eq!(split("Logo"), vec![String::from("Logo")]);
}

#[test]
fn split_several_names() {
    assert_eq!(split("Crtl Alt Shift"), vec!["Crtl", "Alt", "Shift"]);
}

#[test]
fn split_keeps_empty_fields() {
    assert_eq!(split("a  b"), vec!["a", "", "b"]);
    assert_eq!(split(" a"), vec!["", "a"]);
    assert_eq!(split("a "), vec!["a", ""]);
    assert_eq!(split(" "), vec!["", ""]);
}

#[test]
fn split_agrees_with_std() {
    for data in ["", "x", "q w e", "  lead", "trail  ", "F1 XF86Switch_VT_1", "\u{e9}t\u{e9} x"] {
        let expected: Vec<String> = data.split(' ').map(String::from).collect();
        assert_eq!(split(data), expected);
    }
}

#[test]
fn split_only_at_spaces() {
    assert_eq!(split("a\tb,c"), vec!["a\tb,c"]);
}
