use xi_term::commands;
use xi_term::render::pad_line;

#[test]
fn view_commands() {
    assert_eq!(commands::close_view("view-1"), r#"{"method":"close_view","params":{"view-id":"view-1"}}"#);
    assert_eq!(
        commands::save("view-1", "a.txt"),
        r#"{"method":"save","params":{"filename":"a.txt","view-id":"view-1"}}"#
    );
    assert_eq!(commands::new_view_params(""), r#"{"filename":""}"#);
}

#[test]
fn positional_commands() {
    assert_eq!(
        commands::scroll("v", (0, 10)),
        r#"{"method":"edit","params":{"method":"scroll","params":[0,10],"view_id":"v"}}"#
    );
    assert_eq!(
        commands::click("v", (3, 14, 0, 2)),
        r#"{"method":"edit","params":{"method":"click","params":[3,14,0,2],"view_id":"v"}}"#
    );
    assert_eq!(
        commands::drag("v", (100, 9, 1)),
        r#"{"method":"edit","params":{"method":"drag","params":[100,9,1],"view_id":"v"}}"#
    );
}

#[test]
fn plain_edit_commands() {
    let cases: Vec<(fn(&str) -> String, &str)> = vec![
        (commands::delete_backward, "delete_backward"),
        (commands::insert_newline, "insert_newline"),
        (commands::move_up, "move_up"),
        (commands::move_up_and_modify_selection, "move_up_and_modify_selection"),
        (commands::move_down, "move_down"),
        (commands::move_down_and_modify_selection, "move_down_and_modify_selection"),
        (commands::move_left, "move_left"),
        (commands::move_left_and_modify_selection, "move_left_and_modify_selection"),
        (commands::move_right, "move_right"),
        (commands::move_right_and_modify_selection, "move_right_and_modify_selection"),
        (commands::scroll_page_up, "scroll_page_up"),
        (commands::page_up, "page_up"),
        (commands::page_up_and_modify_selection, "page_up_and_modify_selection"),
        (commands::scroll_page_down, "scroll_page_down"),
        (commands::page_down, "page_down"),
        (commands::page_down_and_modify_selection, "page_down_and_modify_selection"),
    ];
    for (f, name) in cases {
        let expected = format!(
            r#"{{"method":"edit","params":{{"method":"{}","params":{{}},"view_id":"view-2"}}}}"#,
            name
        );
        assert_eq!(f("view-2"), expected);
    }
}

#[test]
fn edit_with_given_params() {
    assert_eq!(
        commands::edit("insert", "v", r#"{"chars":"x"}"#),
        r#"{"method":"edit","params":{"method":"insert","params":{"chars":"x"},"view_id":"v"}}"#
    );
}

#[test]
fn pad_line_adds_blank() {
    let mut a = String::from("abc");
    pad_line(&mut a);
    assert_eq!(a, "abc ");
    let mut b = String::from("abc\n");
    pad_line(&mut b);
    assert_eq!(b, "abc \n");
    let mut c = String::new();
    pad_line(&mut c);
    assert_eq!(c, " ");
    let mut d = String::from("\n");
    pad_line(&mut d);
    assert_eq!(d, " \n");
    let mut e = String::from("é\u{4e2d}\n");
    pad_line(&mut e);
    assert_eq!(e, "é\u{4e2d} \n");
}
