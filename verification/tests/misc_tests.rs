use template_build::definitions::TemplateBuildResult;
use template_build::misc::{
    add_required_flags, args_decide_action, check_if_arg_exists, check_if_arg_val_exists, check_if_init_arg_exists,
    get_optional_arg, split_console_line, Actions,
};

fn words(s: &[&str]) -> Vec<String> {
    s.iter().map(|w| w.to_string()).collect()
}

#[test]
fn console_line_is_split_into_words() {
    assert_eq!(split_console_line("  new  -n Shop \n"), words(&["new", "-n", "Shop"]));
    assert_eq!(split_console_line("add -c A -s B -m C\r\n"), words(&["add", "-c", "A", "-s", "B", "-m", "C"]));
    assert_eq!(split_console_line("   "), Vec::<String>::new());
    assert_eq!(split_console_line(""), Vec::<String>::new());
}

#[test]
fn console_words_hold_no_space() {
    for line in ["a b", "  x\ty  z ", "exit\n", "a \u{3000} b"] {
        for w in split_console_line(line) {
            assert!(!w.contains(' '));
            assert_eq!(w.trim(), w);
        }
    }
}

#[test]
fn inner_line_end_piece_becomes_empty_word() {
    assert_eq!(split_console_line("a \n b"), words(&["a", "", "b"]));
}

#[test]
fn flag_value_is_the_next_word() {
    let r = check_if_arg_val_exists(1, words(&["new", "-n", "Shop"]));
    match r {
        TemplateBuildResult::OkRes(info, rest) => {
            assert_eq!(info.name, "-n");
            assert_eq!(info.value, "Shop");
            assert_eq!(rest, words(&["new", "-n", "Shop"]));
        }
        _ => panic!("expected a value"),
    }
}

#[test]
fn flag_as_last_word_has_no_value() {
    let r = check_if_arg_val_exists(1, words(&["new", "-n"]));
    assert!(matches!(r, TemplateBuildResult::GeneralError(m) if m == "arg value for -n does not exist"));
}

#[test]
fn flags_are_found_in_any_case() {
    let r = check_if_arg_exists("-n".to_string(), words(&["new", "-N", "Shop"]));
    assert!(matches!(r, TemplateBuildResult::OkRes(info, _) if info.name == "-N" && info.value == "Shop"));
    let r = check_if_arg_exists("-C".to_string(), words(&["add", "-c", "Orders"]));
    assert!(matches!(r, TemplateBuildResult::OkRes(info, _) if info.value == "Orders"));
}

#[test]
fn the_first_occurrence_of_a_flag_counts() {
    let r = check_if_arg_exists("-p".to_string(), words(&["new", "-p", "a", "-p", "b"]));
    assert!(matches!(r, TemplateBuildResult::OkRes(info, _) if info.value == "a"));
}

#[test]
fn missing_flag_is_reported() {
    let r = check_if_arg_exists("-n".to_string(), words(&["new", "Shop"]));
    assert!(matches!(r, TemplateBuildResult::MissingArg(info) if info.arg_nqme == "-n"));
    let r = check_if_arg_exists("-n".to_string(), Vec::new());
    assert!(matches!(r, TemplateBuildResult::MissingArg(_)));
}

#[test]
fn optional_flags() {
    assert_eq!(get_optional_arg("-p".to_string(), words(&["new", "-P", "/tmp"])), Some("/tmp".to_string()));
    assert_eq!(get_optional_arg("-p".to_string(), words(&["new", "-p"])), None);
    assert_eq!(get_optional_arg("-p".to_string(), words(&["new"])), None);
}

#[test]
fn first_word_is_the_command() {
    let r = check_if_init_arg_exists(0, words(&["add", "-c", "A"]));
    assert!(matches!(r, TemplateBuildResult::OkRes(w, rest) if w == "add" && rest.len() == 3));
    let r = check_if_init_arg_exists(3, words(&["add"]));
    assert!(matches!(r, TemplateBuildResult::GeneralError(m) if m == "No initial arg exists"));
}

#[test]
fn commands_are_chosen_in_any_case() {
    let args = words(&["new", "-n", "x"]);
    assert!(matches!(args_decide_action("new".to_string(), args.clone()), TemplateBuildResult::OkRes(Actions::New, rest) if rest == args));
    assert!(matches!(args_decide_action("Add".to_string(), args.clone()), TemplateBuildResult::OkRes(Actions::Add, _)));
    assert!(matches!(args_decide_action("-h".to_string(), args.clone()), TemplateBuildResult::OkRes(Actions::Help, _)));
    assert!(matches!(args_decide_action("exit".to_string(), args.clone()), TemplateBuildResult::Exit));
    assert!(matches!(args_decide_action("EXIT".to_string(), args.clone()), TemplateBuildResult::Exit));
    assert!(matches!(args_decide_action("remove".to_string(), args), TemplateBuildResult::InvalidArg(w) if w == "remove"));
}

#[test]
fn add_requires_controller_service_and_method() {
    assert_eq!(add_required_flags(), words(&["-C", "-S", "-M"]));
}
