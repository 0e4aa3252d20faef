use template_build::definitions::{
    collect_answer, collect_step, create_question, file_already_exists_action,
    collect_item, file_does_not_exust_action, id_func, override_question, ArgInfo, BaseAddModel,
    BasicFileInfo, BindStep, CollectStep, Dummy, DummyType, FileActionType, ItemEnd, MissingArgInfo,
    NewContentFileType, TemplateBuildResult, EXIT_NOTICE, HELP_TEXT,
};

fn model(kind: &str) -> BaseAddModel {
    BaseAddModel {
        controller: ArgInfo { name: "-c".to_string(), value: "Orders".to_string() },
        service: ArgInfo { name: "-s".to_string(), value: "Order".to_string() },
        method: ArgInfo { name: "-m".to_string(), value: "GetOrder".to_string() },
        req_type: ArgInfo { name: "rt".to_string(), value: "GET".to_string() },
        action_type: ArgInfo { name: "-t".to_string(), value: kind.to_string() },
        dir_path: String::new(),
    }
}

fn file(name: &str) -> BasicFileInfo {
    BasicFileInfo { name: name.to_string(), full_path: format!("/p/{}", name) }
}

#[test]
fn all_options_lists_each_kind_once() {
    let all = NewContentFileType::get_all_options();
    assert_eq!(all.len(), 10);
    for (i, a) in all.iter().enumerate() {
        for b in all.iter().skip(i + 1) {
            assert_ne!(a, b);
        }
    }
    assert_eq!(all[0], NewContentFileType::Controller);
    assert_eq!(all[6], NewContentFileType::DependencyInj);
    assert_eq!(all[9], NewContentFileType::DataModel);
}

#[test]
fn file_names_per_kind() {
    let m = model("SP");
    let names: Vec<String> = NewContentFileType::get_all_options()
        .into_iter()
        .map(|t| t.get_file_name(m.clone()))
        .collect();
    assert_eq!(
        names,
        vec![
            "Orders.Controller.cs",
            "OrderService.cs",
            "IOrderService.cs",
            "GetOrderConfig.cs",
            "GetOrderExecutor:.cs",
            "GetOrderResultHandler.cs",
            "RegisterServices.cs",
            "GetOrderRequestModel.cs",
            "GetOrderResponseModel.cs",
            "GetOrderModel.cs",
        ]
    );
}

#[test]
fn action_types_per_kind() {
    let kinds: Vec<FileActionType> = NewContentFileType::get_all_options()
        .into_iter()
        .map(|t| t.get_file_action_type())
        .collect();
    assert_eq!(
        kinds,
        vec![
            FileActionType::AskOnFileNotExists,
            FileActionType::AskOnFileExists,
            FileActionType::AskOnFileNotExists,
            FileActionType::AskOnFileExists,
            FileActionType::AskOnFileExists,
            FileActionType::AskOnFileExists,
            FileActionType::NoAFileAction,
            FileActionType::AskOnFileExists,
            FileActionType::AskOnFileExists,
            FileActionType::AskOnFileExists,
        ]
    );
}

#[test]
fn rel_folders_per_kind_and_method_kind() {
    let sp: Vec<Vec<String>> = NewContentFileType::get_all_options()
        .into_iter()
        .map(|t| t.get_rel_folder_path(model("sp")))
        .collect();
    assert_eq!(sp[0], vec!["Controller"]);
    assert_eq!(sp[1], vec!["Services"]);
    assert_eq!(sp[2], vec!["Services/Interfaces"]);
    assert_eq!(sp[3], vec!["StoredProcedure/GetOrder"]);
    assert_eq!(sp[4], vec!["StoredProcedure/GetOrder"]);
    assert_eq!(sp[5], vec!["StoredProcedure/GetOrder"]);
    assert_eq!(sp[6], vec![""]);
    assert_eq!(sp[7], vec!["RequestModels"]);
    assert_eq!(sp[8], vec!["ResponseModels"]);
    assert_eq!(sp[9], vec!["Models"]);
    // the method kind is read in upper case: "if" and "If" both choose the `If` folder
    for kind in ["IF", "if", "If"] {
        assert_eq!(
            NewContentFileType::MethodExec.get_rel_folder_path(model(kind)),
            vec!["If/GetOrder"]
        );
    }
    assert_eq!(
        NewContentFileType::MethodExec.get_rel_folder_path(model("IFF")),
        vec!["StoredProcedure/GetOrder"]
    );
}

#[test]
fn replace_patterns_and_contents() {
    for t in NewContentFileType::get_all_options() {
        let infos = t.clone().get_replace_pattern_infos(model("SP"));
        assert_eq!(infos.len(), 1);
        assert_eq!(infos[0].search_pattern, "");
        assert_eq!(infos[0].str_to_replace, HELP_TEXT);
        assert_eq!(t.get_new_file_content(), HELP_TEXT);
    }
}

#[test]
fn bind_step_hands_ok_values_on() {
    let r: TemplateBuildResult<u32, &str, String> = TemplateBuildResult::OkRes(7, "x");
    assert!(matches!(r.bind_step(), BindStep::Proceed(7, "x")));
}

#[test]
fn bind_step_stops_on_errors_with_their_messages() {
    let r: TemplateBuildResult<u32, u32, String> = TemplateBuildResult::GeneralError("bad".to_string());
    assert!(matches!(r.bind_step(), BindStep::Fail(e) if e == "bad"));
    let r: TemplateBuildResult<u32, u32, String> =
        TemplateBuildResult::MissingArg(MissingArgInfo { arg_nqme: "-n".to_string() });
    assert!(matches!(r.bind_step(), BindStep::Report(m, false) if m == "The argument -n is missing!"));
    let r: TemplateBuildResult<u32, u32, String> = TemplateBuildResult::ReqFileMissing("a.cs".to_string());
    assert!(matches!(r.bind_step(), BindStep::Report(m, false) if m == "File a.cs does unfortunately not exist"));
    let r: TemplateBuildResult<u32, u32, String> = TemplateBuildResult::InvalidArg("foo".to_string());
    assert!(matches!(r.bind_step(), BindStep::Report(m, true) if m == "arg foo is invalid"));
    let r: DummyType = TemplateBuildResult::ShowHelp;
    assert!(matches!(r.bind_step(), BindStep::Report(m, true) if m == HELP_TEXT));
    let r: DummyType = TemplateBuildResult::Exit;
    assert!(matches!(r.bind_step(), BindStep::Stop));
    let r: DummyType = TemplateBuildResult::Continue;
    assert!(matches!(r.bind_step(), BindStep::Stop));
}

#[test]
fn bind_step_asks_about_files() {
    let r: TemplateBuildResult<u32, u32, String> = TemplateBuildResult::FileAlreadyExists(file("a.cs"), 1, 2);
    assert!(matches!(r.bind_step(), BindStep::AskOverride(f, 1, 2) if f.name == "a.cs"));
    let r: TemplateBuildResult<u32, u32, String> = TemplateBuildResult::FileDoesNotExist(file("b.cs"), 3, 4);
    assert!(matches!(r.bind_step(), BindStep::AskCreate(f, 3, 4) if f.name == "b.cs"));
}

#[test]
fn id_func_always_exits() {
    let r: TemplateBuildResult<u32, u32, String> = id_func(1, 2);
    assert!(matches!(r, TemplateBuildResult::Exit));
    let r: DummyType = id_func(Dummy {}, Dummy {});
    assert!(matches!(r, TemplateBuildResult::Exit));
}

#[test]
fn override_answers() {
    let r: TemplateBuildResult<u32, u32, String> = file_already_exists_action(1, 2, "o");
    assert!(matches!(r, TemplateBuildResult::OkRes(1, 2)));
    let r: TemplateBuildResult<u32, u32, String> = file_already_exists_action(1, 2, "O");
    assert!(matches!(r, TemplateBuildResult::OkRes(1, 2)));
    let r: TemplateBuildResult<u32, u32, String> = file_already_exists_action(1, 2, "c");
    assert!(matches!(r, TemplateBuildResult::Continue));
    // the line as read from the console, with its line end
    let r: TemplateBuildResult<u32, u32, String> = file_already_exists_action(1, 2, "o\n");
    assert!(matches!(r, TemplateBuildResult::OkRes(1, 2)));
    let r: TemplateBuildResult<u32, u32, String> = file_already_exists_action(1, 2, "c\n");
    assert!(matches!(r, TemplateBuildResult::Continue));
    let r: TemplateBuildResult<u32, u32, String> = file_already_exists_action(1, 2, " O \r\n");
    assert!(matches!(r, TemplateBuildResult::OkRes(1, 2)));
    let r: TemplateBuildResult<u32, u32, String> = file_already_exists_action(1, 2, "x\n");
    assert!(matches!(r, TemplateBuildResult::Exit));
    let r: TemplateBuildResult<u32, u32, String> = file_already_exists_action(1, 2, "oc\n");
    assert!(matches!(r, TemplateBuildResult::Exit));
    let r: TemplateBuildResult<u32, u32, String> = file_already_exists_action(1, 2, "\n");
    assert!(matches!(r, TemplateBuildResult::Exit));
}

#[test]
fn create_answers() {
    let r: TemplateBuildResult<u32, u32, String> = file_does_not_exust_action(1, 2, "y");
    assert!(matches!(r, TemplateBuildResult::OkRes(1, 2)));
    let r: TemplateBuildResult<u32, u32, String> = file_does_not_exust_action(1, 2, "Y");
    assert!(matches!(r, TemplateBuildResult::OkRes(1, 2)));
    let r: TemplateBuildResult<u32, u32, String> = file_does_not_exust_action(1, 2, "y\n");
    assert!(matches!(r, TemplateBuildResult::OkRes(1, 2)));
    let r: TemplateBuildResult<u32, u32, String> = file_does_not_exust_action(1, 2, " y \r\n");
    assert!(matches!(r, TemplateBuildResult::OkRes(1, 2)));
    let r: TemplateBuildResult<u32, u32, String> = file_does_not_exust_action(1, 2, "n\n");
    assert!(matches!(r, TemplateBuildResult::Exit));
    let r: TemplateBuildResult<u32, u32, String> = file_does_not_exust_action(1, 2, "c\n");
    assert!(matches!(r, TemplateBuildResult::Exit));
    let r: TemplateBuildResult<u32, u32, String> = file_does_not_exust_action(1, 2, "");
    assert!(matches!(r, TemplateBuildResult::Exit));
}

#[test]
fn questions_name_the_file() {
    assert!(override_question(&file("a.cs")).starts_with("File a.cs already exists. If you wish to override it"));
    assert_eq!(
        create_question(&file("b.cs")),
        "File b.cs does not  exists. If you wish to create it, write 'y' followed by 'ENTER' on the keyboard, otherwise click anywhere on the keyboard to exit"
    );
}

#[test]
fn collecting_keeps_asks_or_aborts() {
    let r: TemplateBuildResult<u32, u32, String> = TemplateBuildResult::OkRes(5, 0);
    assert!(matches!(collect_step::<u32, u32, String, ()>(r), CollectStep::Done(ItemEnd::Kept(5))));
    let r: TemplateBuildResult<u32, u32, String> = TemplateBuildResult::FileDoesNotExist(file("a"), 5, 6);
    assert!(matches!(collect_step::<u32, u32, String, ()>(r), CollectStep::Ask(_, 5, 6, false)));
    let r: TemplateBuildResult<u32, u32, String> = TemplateBuildResult::FileAlreadyExists(file("a"), 5, 6);
    assert!(matches!(collect_step::<u32, u32, String, ()>(r), CollectStep::Ask(_, 5, 6, true)));
    let r: TemplateBuildResult<u32, u32, String> = TemplateBuildResult::GeneralError("e".to_string());
    assert!(matches!(
        collect_step::<u32, u32, String, ()>(r),
        CollectStep::Done(ItemEnd::Stopped(TemplateBuildResult::GeneralError(e))) if e == "e"
    ));
    let r: TemplateBuildResult<u32, u32, String> = TemplateBuildResult::Continue;
    assert!(matches!(
        collect_step::<u32, u32, String, ()>(r),
        CollectStep::Done(ItemEnd::Stopped(TemplateBuildResult::Continue))
    ));
}

#[test]
fn collecting_answers() {
    let r: TemplateBuildResult<u32, u32, String> = TemplateBuildResult::OkRes(5, 0);
    assert!(matches!(collect_answer::<u32, u32, String, ()>(r, false), ItemEnd::Kept(5)));
    let r: TemplateBuildResult<u32, u32, String> = TemplateBuildResult::Continue;
    assert!(matches!(collect_answer::<u32, u32, String, ()>(r, true), ItemEnd::Skipped));
    let r: TemplateBuildResult<u32, u32, String> = TemplateBuildResult::Continue;
    assert!(matches!(
        collect_answer::<u32, u32, String, ()>(r, false),
        ItemEnd::Stopped(TemplateBuildResult::Exit)
    ));
    let r: TemplateBuildResult<u32, u32, String> = TemplateBuildResult::Exit;
    assert!(matches!(
        collect_answer::<u32, u32, String, ()>(r, true),
        ItemEnd::Stopped(TemplateBuildResult::Exit)
    ));
}

#[test]
fn collecting_items_keeps_values_until_a_stop() {
    let mut kept: Vec<(u32, &str)> = Vec::new();
    assert_eq!(collect_item::<u32, &str, u32>(&mut kept, 1, ItemEnd::Kept("a")), None);
    assert_eq!(collect_item::<u32, &str, u32>(&mut kept, 2, ItemEnd::Skipped), None);
    assert_eq!(collect_item::<u32, &str, u32>(&mut kept, 1, ItemEnd::Kept("b")), None);
    assert_eq!(kept, vec![(1, "a"), (1, "b")]);
    assert_eq!(collect_item::<u32, &str, u32>(&mut kept, 3, ItemEnd::Stopped(9)), Some(9));
    assert_eq!(kept, vec![(1, "a"), (1, "b")]);
    // the map they make keeps the last value for each key
    let map: std::collections::HashMap<u32, &str> = kept.into_iter().collect();
    assert_eq!(map.len(), 1);
    assert_eq!(map[&1], "b");
}

type Res = TemplateBuildResult<u32, u32, String>;

/// The console as a chain sees it: the answers still to read and what was written.
struct Console {
    lines: Vec<String>,
    written: Vec<String>,
}

/// Binds `f` to `r` as a chain does, carrying out `bind_step`'s decision.
fn bind(r: Res, c: &mut Console, f: &dyn Fn(u32, u32, &mut Console) -> Res) -> Res {
    match r.bind_step() {
        BindStep::Proceed(a, b) => f(a, b, c),
        BindStep::Fail(e) => {
            c.written.push(e);
            TemplateBuildResult::Exit
        }
        BindStep::Report(m, _) => {
            c.written.push(m);
            TemplateBuildResult::Exit
        }
        BindStep::Stop => TemplateBuildResult::Exit,
        BindStep::AskOverride(info, a, b) => {
            c.written.push(override_question(&info));
            let line = if c.lines.is_empty() { String::new() } else { c.lines.remove(0) };
            let answer: Res = file_already_exists_action(a, b, &line);
            if matches!(answer, TemplateBuildResult::Exit) {
                c.written.push(EXIT_NOTICE.to_string());
            }
            bind(answer, c, f)
        }
        BindStep::AskCreate(info, a, b) => {
            c.written.push(create_question(&info));
            let line = if c.lines.is_empty() { String::new() } else { c.lines.remove(0) };
            let answer: Res = file_does_not_exust_action(a, b, &line);
            if matches!(answer, TemplateBuildResult::Exit) {
                c.written.push(EXIT_NOTICE.to_string());
            }
            bind(answer, c, f)
        }
    }
}

fn describe(r: &Res) -> String {
    match r {
        TemplateBuildResult::OkRes(a, b) => format!("ok {} {}", a, b),
        TemplateBuildResult::Exit => "exit".to_string(),
        _ => "other".to_string(),
    }
}

#[test]
fn chaining_is_associative() {
    let f = |a: u32, b: u32, _c: &mut Console| -> Res { TemplateBuildResult::FileAlreadyExists(file("f.cs"), a + 1, b) };
    let g = |a: u32, b: u32, _c: &mut Console| -> Res { TemplateBuildResult::FileDoesNotExist(file("g.cs"), a * 2, b + 1) };
    let starts: Vec<fn() -> Res> = vec![
        || TemplateBuildResult::OkRes(1, 2),
        || TemplateBuildResult::FileDoesNotExist(file("s.cs"), 1, 2),
        || TemplateBuildResult::GeneralError("broken".to_string()),
        || TemplateBuildResult::Continue,
    ];
    let answers = vec![
        vec!["o\n", "y\n"],
        vec!["y\n", "o\n", "y\n"],
        vec!["y\n", "c\n"],
        vec!["y\n", "o\n", "n\n"],
        vec!["o\n"],
        vec![],
    ];
    for start in &starts {
        for lines in &answers {
            let lines: Vec<String> = lines.iter().map(|l| l.to_string()).collect();
            let mut left = Console { lines: lines.clone(), written: vec![] };
            let first = bind(start(), &mut left, &f);
            let left_result = bind(first, &mut left, &g);
            let mut right = Console { lines, written: vec![] };
            let right_result = bind(start(), &mut right, &|a, b, c: &mut Console| {
                let r = f(a, b, c);
                bind(r, c, &g)
            });
            assert_eq!(describe(&left_result), describe(&right_result));
            assert_eq!(left.lines, right.lines);
            assert_eq!(left.written, right.written);
        }
    }
    // one run spelled out: the override is accepted, then `g` asks about its file
    let mut c = Console { lines: vec!["o\n".to_string(), "y\n".to_string()], written: vec![] };
    let first = bind(TemplateBuildResult::OkRes(1, 2), &mut c, &f);
    let r = bind(first, &mut c, &g);
    assert!(matches!(r, TemplateBuildResult::FileDoesNotExist(info, 4, 3) if info.name == "g.cs"));
    assert_eq!(c.written, vec![override_question(&file("f.cs"))]);
    assert_eq!(c.lines, vec!["y\n".to_string()]);
}
