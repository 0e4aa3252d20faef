use template_build::add_to_template::{
    changed_content, collect_args, curr_pos_err_format, decide_file_action, dir_matches_rel_path,
    folder_to_create, get_model, located_error, traced_error, ArgValues, FileDecision,
};
use template_build::definitions::{
    ArgInfo, BaseAddModel, BasicFileInfo, ChangeFileInfo, ChangePatternInfo, FileInfo,
    NewContentFileType, SearchFileInFolderInfo, TemplateBuildResult, HELP_TEXT,
};

fn words(s: &[&str]) -> Vec<String> {
    s.iter().map(|w| w.to_string()).collect()
}

fn required() -> Vec<String> {
    words(&["-C", "-S", "-M"])
}

fn model(dir: &str) -> BaseAddModel {
    BaseAddModel {
        controller: ArgInfo { name: "-c".to_string(), value: "Orders".to_string() },
        service: ArgInfo { name: "-s".to_string(), value: "Order".to_string() },
        method: ArgInfo { name: "-m".to_string(), value: "GetOrder".to_string() },
        req_type: ArgInfo { name: "rt".to_string(), value: "GET".to_string() },
        action_type: ArgInfo { name: "-t".to_string(), value: "SP".to_string() },
        dir_path: dir.to_string(),
    }
}

fn search(t: NewContentFileType, dir: &str) -> SearchFileInFolderInfo {
    let state = model(dir);
    SearchFileInFolderInfo {
        found_folder: None,
        rel_paths: t.clone().get_rel_folder_path(state.clone()),
        file_type: t,
        state,
    }
}

#[test]
fn add_reads_the_required_flags() {
    let args = words(&["add", "-c", "Orders", "-s", "Order", "-m", "GetOrder"]);
    let vals = match collect_args(required(), args.clone()) {
        TemplateBuildResult::OkRes(vals, rest) => {
            assert_eq!(rest, args);
            vals
        }
        _ => panic!("all flags are there"),
    };
    assert_eq!(vals.entries.len(), 3);
    assert_eq!(vals.entries[0].0, "-C");
    assert_eq!(vals.entries[0].1, ArgInfo { name: "-c".to_string(), value: "Orders".to_string() });
    match get_model(vals, args) {
        TemplateBuildResult::OkRes((), m) => {
            assert_eq!(m.controller.value, "Orders");
            assert_eq!(m.service.value, "Order");
            assert_eq!(m.method.value, "GetOrder");
            assert_eq!(m.req_type, ArgInfo { name: "rt".to_string(), value: "GET".to_string() });
            assert_eq!(m.action_type, ArgInfo { name: "-t".to_string(), value: "SP".to_string() });
            assert_eq!(m.dir_path, "");
        }
        _ => panic!("model expected"),
    }
}

#[test]
fn optional_flags_of_add() {
    let args = words(&["add", "-c", "A", "-s", "B", "-m", "C", "-RT", "POST", "-t", "if"]);
    let vals = match collect_args(required(), args.clone()) {
        TemplateBuildResult::OkRes(vals, _) => vals,
        _ => panic!("all flags are there"),
    };
    match get_model(vals, args) {
        TemplateBuildResult::OkRes((), m) => {
            assert_eq!(m.req_type, ArgInfo { name: "rt".to_string(), value: "POST".to_string() });
            assert_eq!(m.action_type, ArgInfo { name: "-t".to_string(), value: "if".to_string() });
        }
        _ => panic!("model expected"),
    }
}

#[test]
fn collecting_stops_at_the_first_missing_flag() {
    let r = collect_args(required(), words(&["add", "-c", "A", "-m", "C"]));
    assert!(matches!(r, TemplateBuildResult::MissingArg(info) if info.arg_nqme == "-S"));
    let r = collect_args(required(), words(&["add", "-c", "A", "-s"]));
    assert!(matches!(r, TemplateBuildResult::GeneralError(m) if m == "arg value for -s does not exist"));
}

#[test]
fn model_requires_c_then_s_then_m() {
    let entry = |k: &str, v: &str| (k.to_string(), ArgInfo { name: k.to_lowercase(), value: v.to_string() });
    let r = get_model(ArgValues { entries: vec![] }, vec![]);
    assert!(matches!(r, TemplateBuildResult::GeneralError(m) if m == "expected value for arg '-c', found none."));
    let r = get_model(ArgValues { entries: vec![entry("-C", "a")] }, vec![]);
    assert!(matches!(r, TemplateBuildResult::GeneralError(m) if m == "expected value for arg '-s', found none."));
    let r = get_model(ArgValues { entries: vec![entry("-C", "a"), entry("-S", "b")] }, vec![]);
    assert!(matches!(r, TemplateBuildResult::GeneralError(m) if m == "expected value for arg '-m', found none."));
    // the entry recorded last for a flag counts
    let r = get_model(
        ArgValues { entries: vec![entry("-C", "a"), entry("-S", "b"), entry("-M", "c"), entry("-C", "z")] },
        vec![],
    );
    assert!(matches!(r, TemplateBuildResult::OkRes((), m) if m.controller.value == "z"));
}

#[test]
fn missing_file_is_created_or_asked_for() {
    match decide_file_action(None, search(NewContentFileType::ServiceClass, "base")) {
        FileDecision::Create(n) => {
            assert_eq!(n.file_info.name, "OrderService.cs");
            assert_eq!(n.file_info.full_path, "base/Services/OrderService.cs");
            assert_eq!(n.new_content, HELP_TEXT);
        }
        _ => panic!("a new service file is written"),
    }
    match decide_file_action(None, search(NewContentFileType::Controller, "")) {
        FileDecision::AskCreate(b, n) => {
            assert_eq!(b.name, "Orders.Controller.cs");
            assert_eq!(b.full_path, "Controller/Orders.Controller.cs");
            assert_eq!(n.file_info, b);
        }
        _ => panic!("a missing controller is asked for"),
    }
    match decide_file_action(None, search(NewContentFileType::DependencyInj, "base")) {
        FileDecision::Create(n) => assert_eq!(n.file_info.full_path, "base/RegisterServices.cs"),
        _ => panic!("the registration file is written"),
    }
}

#[test]
fn existing_file_is_overridden_or_changed() {
    let found = BasicFileInfo { name: "GetOrderModel.cs".to_string(), full_path: "m/GetOrderModel.cs".to_string() };
    match decide_file_action(Some(found.clone()), search(NewContentFileType::DataModel, "")) {
        FileDecision::AskOverride(b, n) => {
            assert_eq!(b, found);
            assert_eq!(n.file_info, found);
        }
        _ => panic!("an existing model asks before overriding"),
    }
    match decide_file_action(Some(found.clone()), search(NewContentFileType::ServiceInterface, "")) {
        FileDecision::Change(b, infos) => {
            assert_eq!(b, found);
            assert_eq!(infos, vec![ChangePatternInfo { search_pattern: String::new(), str_to_replace: HELP_TEXT.to_string() }]);
        }
        _ => panic!("an existing interface is changed"),
    }
}

fn change(content: &str, pats: &[(&str, &str)]) -> ChangeFileInfo {
    ChangeFileInfo {
        file_info: FileInfo { name: "f.cs".to_string(), full_path: "f.cs".to_string(), content: content.to_string() },
        change_infos: pats
            .iter()
            .map(|(p, t)| ChangePatternInfo { search_pattern: p.to_string(), str_to_replace: t.to_string() })
            .collect(),
    }
}

#[test]
fn text_is_inserted_after_the_match() {
    let r = changed_content(&change("class A {\n}\nclass A {\n}", &[(r"class \w+ \{", "\n  int x;")]));
    assert_eq!(r, Ok(Some("class A {\n  int x;\n}\nclass A {\n  int x;\n}".to_string())));
}

#[test]
fn empty_pattern_inserts_between_characters() {
    let r = changed_content(&change("ab", &[("", "-")]));
    assert_eq!(r, Ok(Some("-a-b-".to_string())));
}

#[test]
fn unmatched_patterns_leave_the_file() {
    let r = changed_content(&change("abc", &[("xyz", "1"), ("q+", "2")]));
    assert_eq!(r, Ok(None));
}

#[test]
fn bad_pattern_stops_the_change() {
    match changed_content(&change("abc", &[("a", "1"), ("(", "2")])) {
        Err(m) => assert!(!m.is_empty()),
        other => panic!("expected an error, got {:?}", other),
    }
}

#[test]
fn folder_paths_match_in_any_case_and_with_backslashes() {
    assert!(dir_matches_rel_path("./src/Services/Interfaces", "services/interfaces"));
    assert!(dir_matches_rel_path(".\\src\\Services\\Interfaces", "Services/Interfaces"));
    assert!(!dir_matches_rel_path("./src/Models", "Controller"));
}

#[test]
fn folder_created_under_the_model_folder() {
    let info = search(NewContentFileType::RequestModel, "proj");
    assert_eq!(folder_to_create(&info, &info.state), "proj/RequestModels");
}

#[test]
fn error_messages() {
    let pos = curr_pos_err_format("find_file_wrapper".to_string(), "steps.rs".to_string(), "12".to_string());
    assert_eq!(pos, "steps.rs:12 in find_file_wrapper");
    assert_eq!(located_error("oops".to_string(), pos.clone()), "oops - \"steps.rs:12 in find_file_wrapper\"");
    // the place is written as `{:?}` writes a text: quotes and backslashes escaped
    assert_eq!(
        located_error("oops".to_string(), "a\"b\\c\n".to_string()),
        "oops - \"a\\\"b\\\\c\\n\""
    );
    assert_eq!(traced_error(pos, "oops".to_string()), "steps.rs:12 in find_file_wrapper -> oops");
}
