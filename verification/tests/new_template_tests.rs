use template_build::definitions::{
    ArgInfo, ChangeFileInfo, ChangePatternInfo, FileInfo, NewTemplateModel, TemplateBuildResult,
};
use template_build::new_template::{
    destination_arg, get_new_template_name_arg, get_template_zip_path, template_name_arg, new_template_folder, renamed_entry,
    template_change_pattern, template_dir, template_rewrites, template_temp_folder,
    validate_template_dest_path, validate_template_path, CODE_PATTERN, SOLUTION_PATTERN,
};

fn state() -> NewTemplateModel {
    NewTemplateModel {
        new_template_path: "/work".to_string(),
        name: "Shop".to_string(),
        source_dir: "/t/WebApiTemplate.zip".to_string(),
    }
}

#[test]
fn name_flag_starts_the_model() {
    let args = vec!["new".to_string(), "-n".to_string(), "Shop".to_string()];
    let r = get_new_template_name_arg(ArgInfo { name: "-n".to_string(), value: "Shop".to_string() }, args.clone());
    match r {
        TemplateBuildResult::OkRes(rest, s) => {
            assert_eq!(rest, args);
            assert_eq!(s.name, "Shop");
            assert_eq!(s.new_template_path, "");
            assert_eq!(s.source_dir, "");
        }
        _ => panic!("model expected"),
    }
}

#[test]
fn destination_must_be_a_folder() {
    let r = validate_template_dest_path("/dest".to_string(), state(), true);
    assert!(matches!(r, TemplateBuildResult::OkRes((), s) if s.new_template_path == "/dest" && s.name == "Shop"));
    let r = validate_template_dest_path("/nope".to_string(), state(), false);
    assert!(matches!(r, TemplateBuildResult::GeneralError(m) if m == "Folder /nope does not exist"));
}

#[test]
fn template_file_must_exist() {
    let r = validate_template_path(state(), true);
    assert!(matches!(r, TemplateBuildResult::OkRes((), s) if s.source_dir == "/t/WebApiTemplate.zip"));
    let r = validate_template_path(state(), false);
    assert!(matches!(r, TemplateBuildResult::GeneralError(m) if m == "File /t/WebApiTemplate.zip does not exist"));
}

#[test]
fn template_path_comes_from_the_setting() {
    let r = get_template_zip_path(state(), Ok("/z/WebApiTemplate.zip".to_string()));
    assert!(matches!(r, TemplateBuildResult::OkRes((), s) if s.source_dir == "/z/WebApiTemplate.zip" && s.name == "Shop"));
    let r = get_template_zip_path(state(), Err("environment variable not found".to_string()));
    assert!(matches!(r, TemplateBuildResult::GeneralError(m) if m == "environment variable not found"));
}

#[test]
fn folders_of_a_new_project() {
    assert_eq!(template_temp_folder(&state()), "/t/temp");
    assert_eq!(new_template_folder(&state()), "/work/Shop");
    assert_eq!(template_dir(&state()), "/work/Shop");
}

#[test]
fn entries_are_renamed() {
    assert_eq!(renamed_entry("WebApiTemplate.Api.csproj", "Shop"), "Shop.Api.csproj");
    assert_eq!(renamed_entry("Program.cs", "Shop"), "Program.cs");
}

#[test]
fn change_patterns_by_file_kind() {
    let code = template_change_pattern("Program.cs", &state()).unwrap();
    assert_eq!(code, ChangePatternInfo { search_pattern: CODE_PATTERN.to_string(), str_to_replace: "Shop".to_string() });
    let proj = template_change_pattern("Api.csproj", &state()).unwrap();
    assert_eq!(proj.search_pattern, CODE_PATTERN);
    let sln = template_change_pattern("All.sln", &state()).unwrap();
    assert_eq!(sln.search_pattern, SOLUTION_PATTERN);
    assert_eq!(template_change_pattern("readme.md", &state()), None);
}

fn file(content: &str, pattern: &str) -> ChangeFileInfo {
    ChangeFileInfo {
        file_info: FileInfo { name: "a.cs".to_string(), full_path: "a.cs".to_string(), content: content.to_string() },
        change_infos: vec![ChangePatternInfo { search_pattern: pattern.to_string(), str_to_replace: "Shop".to_string() }],
    }
}

#[test]
fn code_lines_naming_the_template_are_renamed() {
    let content = "using WebApiTemplate.Models;\nnamespace WebApiTemplate.Api\n{\n  // WebApiTemplate here stays\n}";
    let (written, err) = template_rewrites(&file(content, CODE_PATTERN), &state());
    assert_eq!(err, None);
    assert_eq!(
        written,
        vec!["using Shop.Models;\nnamespace Shop.Api\n{\n  // WebApiTemplate here stays\n}".to_string()]
    );
}

#[test]
fn solution_project_lines_are_renamed() {
    let content = "Project(\"{X}\") = \"WebApiTemplate\", \"WebApiTemplate\\WebApiTemplate.csproj\"\nEndProject";
    let (written, err) = template_rewrites(&file(content, SOLUTION_PATTERN), &state());
    assert_eq!(err, None);
    assert_eq!(written, vec!["Project(\"{X}\") = \"Shop\", \"Shop\\Shop.csproj\"\nEndProject".to_string()]);
}

#[test]
fn unmatched_template_file_is_written_unchanged() {
    let (written, err) = template_rewrites(&file("class A {}", CODE_PATTERN), &state());
    assert_eq!(err, None);
    assert_eq!(written, vec!["class A {}".to_string()]);
}

#[test]
fn bad_template_pattern_stops() {
    let (written, err) = template_rewrites(&file("x", "("), &state());
    assert!(written.is_empty());
    assert!(err.is_some());
}

#[test]
fn renaming_to_the_template_name_changes_nothing() {
    let content = "using WebApiTemplate.Models;\nnamespace WebApiTemplate.Api\n";
    let same = NewTemplateModel { name: "WebApiTemplate".to_string(), ..state() };
    let (written, err) = template_rewrites(&file(content, CODE_PATTERN), &same);
    assert_eq!(err, None);
    assert_eq!(written, vec![content.to_string()]);
}

fn words(s: &[&str]) -> Vec<String> {
    s.iter().map(|w| w.to_string()).collect()
}

#[test]
fn new_reads_name_and_destination_flags() {
    let args = words(&["NEW", "-N", "Shop", "-p", "/out"]);
    match template_name_arg(args.clone()) {
        TemplateBuildResult::OkRes(info, rest) => {
            assert_eq!(info.name, "-N");
            assert_eq!(info.value, "Shop");
            assert_eq!(rest, args);
        }
        _ => panic!("the name flag is there"),
    }
    assert_eq!(destination_arg(args), Some("/out".to_string()));
    let args = words(&["NEW", "-p", "/out"]);
    assert!(matches!(template_name_arg(args.clone()), TemplateBuildResult::MissingArg(m) if m.arg_nqme == "-n"));
    assert_eq!(destination_arg(words(&["NEW", "-n", "Shop"])), None);
}
