//! The data of the tool: the kinds of generated files, the models built from
//! the command line, the result type that every step returns, and the
//! decisions taken on such a result.
use vstd::prelude::*;
use crate::text::{to_upper, trim, trimmed, upper_case};

verus! {

/// The help shown for `-h`.  The file templates below share this text.
pub const HELP_TEXT: &'static str = "Template Builder commands:
  NEW -n <name> [-p <destination folder>]
      Creates a Web API project named <name> from the zipped template whose
      path the environment variable TEMPLATE_PATH holds.
  ADD -c <controller> -s <service> -m <method> [-rt <request type>] [-t <IF|SP>]
      Adds the controller, service and method files to the project in the
      current folder. The request type defaults to GET, the method kind to SP.
  -h   Shows this help.
  EXIT Leaves the console.
";

/// Content of a new controller file.
pub const CONTROLLER: &'static str = HELP_TEXT;
/// Content of a new service class file.
pub const SERVICE_CLASS: &'static str = HELP_TEXT;
/// Content of a new service interface file.
pub const SERVICE_INTERFACE: &'static str = HELP_TEXT;
/// Content of a new method configuration class file.
pub const METHOD_CONF_CLASS: &'static str = HELP_TEXT;
/// Content of a new method executor file.
pub const METHOD_EXEC: &'static str = HELP_TEXT;
/// Content of a new method result handler file.
pub const METHOD_RES_HANDLER: &'static str = HELP_TEXT;
/// Content of a new dependency registration file.
pub const DEPENDENCY_INJ: &'static str = HELP_TEXT;
/// Content of a new request model file.
pub const REQUEST_MODEL: &'static str = HELP_TEXT;
/// Content of a new response model file.
pub const RESPONSE_MODEL: &'static str = HELP_TEXT;
/// Content of a new data model file.
pub const DATA_MODEL: &'static str = HELP_TEXT;
/// Text added to an existing controller file.
pub const CONTROLLER_REPLACE: &'static str = HELP_TEXT;
/// Text added to an existing service class file.
pub const SERVICE_CLASS_REPLACE: &'static str = HELP_TEXT;
/// Text added to an existing service interface file.
pub const SERVICE_INTERFACE_REPLACE: &'static str = HELP_TEXT;
/// Text added to an existing method executor file.
pub const METHOD_EXEC_REPLACE: &'static str = HELP_TEXT;
/// Text added to an existing method result handler file.
pub const METHOD_RES_HANDLER_REPLACE: &'static str = HELP_TEXT;
/// Text added to an existing dependency registration file.
pub const DEPENDENCY_INJ_REPLACE: &'static str = HELP_TEXT;

/// A value that carries nothing.
pub struct Dummy {}

/// A result whose payloads carry nothing.
pub type DummyType = TemplateBuildResult<Dummy, Dummy, String>;

/// The kinds of file that `ADD` creates or extends.
#[derive(Debug, Clone, Copy, Hash, PartialEq, Eq)]
pub enum NewContentFileType {
    Controller,
    ServiceClass,
    ServiceInterface,
    MethodConfClass,
    MethodExec,
    MethodResHandler,
    DependencyInj,
    RequestModel,
    ResponseModel,
    DataModel,
}

/// What to do about a file of a kind, depending on whether it exists.
#[derive(Debug, Clone, Copy, PartialEq, Eq)]
pub enum FileActionType {
    AskOnFileExists,
    AskOnFileNotExists,
    NoAFileAction,
}

/// A named command-line value: the flag and the word after it.
#[derive(Default, Debug, Clone, Hash, PartialEq, Eq)]
pub struct ArgInfo {
    pub name: String,
    pub value: String,
}

/// What `ADD` works from.  `dir_path` is the folder that new folders and
/// files are placed under.
#[derive(Default, Debug, Clone)]
pub struct BaseAddModel {
    pub controller: ArgInfo,
    pub service: ArgInfo,
    pub method: ArgInfo,
    pub req_type: ArgInfo,
    pub action_type: ArgInfo,
    pub dir_path: String,
}

/// What `NEW` works from.
#[derive(Default, Debug, Clone)]
pub struct NewTemplateModel {
    pub new_template_path: String,
    pub name: String,
    pub source_dir: String,
}

/// The folder search for one kind of file: the folder found (if any), the
/// relative folders looked for, the kind, and the model.
#[derive(Debug, Clone)]
pub struct SearchFileInFolderInfo {
    pub found_folder: Option<String>,
    pub rel_paths: Vec<String>,
    pub file_type: NewContentFileType,
    pub state: BaseAddModel,
}

/// The flag that was looked for and not found.
#[derive(Debug, Clone)]
pub struct MissingArgInfo {
    pub arg_nqme: String,
}

/// A file to write and what to write in it.
#[derive(Default, Debug, Clone)]
pub struct NewFileInfo {
    pub new_content: String,
    pub file_info: BasicFileInfo,
}

/// After the first match of `search_pattern`, insert `str_to_replace`.
#[derive(Default, Debug, Hash, PartialEq, Eq, Clone)]
pub struct ChangePatternInfo {
    pub search_pattern: String,
    pub str_to_replace: String,
}

/// A file read from disk and the changes to apply to it.
#[derive(Default, Debug, Hash, PartialEq, Eq, Clone)]
pub struct ChangeFileInfo {
    pub file_info: FileInfo,
    pub change_infos: Vec<ChangePatternInfo>,
}

/// A file with its content.
#[derive(Default, Debug, Hash, PartialEq, Eq, Clone)]
pub struct FileInfo {
    pub name: String,
    pub full_path: String,
    pub content: String,
}

/// A file's name and path.
#[derive(Default, Debug, Hash, PartialEq, Eq, Clone)]
pub struct BasicFileInfo {
    pub name: String,
    pub full_path: String,
}

/// The outcome of a step: a value and a second value passed along (`OkRes`),
/// or the reason the chain of steps stops or must ask the user.
pub enum TemplateBuildResult<T1, T2, E> {
    OkRes(T1, T2),
    GeneralError(E),
    MissingArg(MissingArgInfo),
    Exit,
    FileAlreadyExists(BasicFileInfo, T1, T2),
    FileDoesNotExist(BasicFileInfo, T1, T2),
    ReqFileMissing(String),
    Continue,
    InvalidArg(String),
    ShowHelp,
}

/// Every kind of generated file, in the order `ADD` handles them.
pub open spec fn all_file_types() -> Seq<NewContentFileType> {
    seq![
        NewContentFileType::Controller,
        NewContentFileType::ServiceClass,
        NewContentFileType::ServiceInterface,
        NewContentFileType::MethodConfClass,
        NewContentFileType::MethodExec,
        NewContentFileType::MethodResHandler,
        NewContentFileType::DependencyInj,
        NewContentFileType::RequestModel,
        NewContentFileType::ResponseModel,
        NewContentFileType::DataModel,
    ]
}

/// The name of the file of kind `t` for the given controller, service and
/// method names.
pub open spec fn file_name_of(
    t: NewContentFileType,
    controller: Seq<char>,
    service: Seq<char>,
    method: Seq<char>,
) -> Seq<char> {
    match t {
        NewContentFileType::Controller => controller + ".Controller.cs"@,
        NewContentFileType::ServiceClass => service + "Service.cs"@,
        NewContentFileType::ServiceInterface => "I"@ + service + "Service.cs"@,
        NewContentFileType::MethodConfClass => method + "Config.cs"@,
        NewContentFileType::MethodExec => method + "Executor:.cs"@,
        NewContentFileType::MethodResHandler => method + "ResultHandler.cs"@,
        NewContentFileType::DependencyInj => "RegisterServices.cs"@,
        NewContentFileType::RequestModel => method + "RequestModel.cs"@,
        NewContentFileType::ResponseModel => method + "ResponseModel.cs"@,
        NewContentFileType::DataModel => method + "Model.cs"@,
    }
}

/// What is done about a file of kind `t`.
pub open spec fn action_type_of(t: NewContentFileType) -> FileActionType {
    match t {
        NewContentFileType::Controller => FileActionType::AskOnFileNotExists,
        NewContentFileType::ServiceClass => FileActionType::AskOnFileExists,
        NewContentFileType::ServiceInterface => FileActionType::AskOnFileNotExists,
        NewContentFileType::MethodConfClass => FileActionType::AskOnFileExists,
        NewContentFileType::MethodExec => FileActionType::AskOnFileExists,
        NewContentFileType::MethodResHandler => FileActionType::AskOnFileExists,
        NewContentFileType::DependencyInj => FileActionType::NoAFileAction,
        NewContentFileType::RequestModel => FileActionType::AskOnFileExists,
        NewContentFileType::ResponseModel => FileActionType::AskOnFileExists,
        NewContentFileType::DataModel => FileActionType::AskOnFileExists,
    }
}

/// The folder of a method's files: `If` for a method kind that reads `IF` in
/// upper case, `StoredProcedure` otherwise.
pub open spec fn method_folder(action_type: Seq<char>) -> Seq<char> {
    if upper_case(action_type) == "IF"@ {
        "If"@
    } else {
        "StoredProcedure"@
    }
}

/// The folder, relative to the project, that holds the file of kind `t`.
pub open spec fn rel_folder_of(t: NewContentFileType, action_type: Seq<char>, method: Seq<char>) -> Seq<
    char,
> {
    match t {
        NewContentFileType::Controller => "Controller"@,
        NewContentFileType::ServiceClass => "Services"@,
        NewContentFileType::ServiceInterface => "Services/Interfaces"@,
        NewContentFileType::MethodConfClass => method_folder(action_type) + "/"@ + method,
        NewContentFileType::MethodExec => method_folder(action_type) + "/"@ + method,
        NewContentFileType::MethodResHandler => method_folder(action_type) + "/"@ + method,
        NewContentFileType::DependencyInj => ""@,
        NewContentFileType::RequestModel => "RequestModels"@,
        NewContentFileType::ResponseModel => "ResponseModels"@,
        NewContentFileType::DataModel => "Models"@,
    }
}

/// The text inserted into an existing file of kind `t`.
pub open spec fn insert_text_of(t: NewContentFileType) -> Seq<char> {
    match t {
        NewContentFileType::Controller => CONTROLLER_REPLACE@,
        NewContentFileType::ServiceClass => SERVICE_CLASS_REPLACE@,
        NewContentFileType::ServiceInterface => SERVICE_INTERFACE_REPLACE@,
        NewContentFileType::MethodConfClass => METHOD_CONF_CLASS@,
        NewContentFileType::MethodExec => METHOD_EXEC_REPLACE@,
        NewContentFileType::MethodResHandler => METHOD_RES_HANDLER_REPLACE@,
        NewContentFileType::DependencyInj => DEPENDENCY_INJ_REPLACE@,
        NewContentFileType::RequestModel => REQUEST_MODEL@,
        NewContentFileType::ResponseModel => RESPONSE_MODEL@,
        NewContentFileType::DataModel => DATA_MODEL@,
    }
}

/// The content of a new file of kind `t`.
pub open spec fn new_content_of(t: NewContentFileType) -> Seq<char> {
    match t {
        NewContentFileType::Controller => CONTROLLER@,
        NewContentFileType::ServiceClass => SERVICE_CLASS@,
        NewContentFileType::ServiceInterface => SERVICE_INTERFACE@,
        NewContentFileType::MethodConfClass => METHOD_CONF_CLASS@,
        NewContentFileType::MethodExec => METHOD_EXEC@,
        NewContentFileType::MethodResHandler => METHOD_RES_HANDLER@,
        NewContentFileType::DependencyInj => DEPENDENCY_INJ@,
        NewContentFileType::RequestModel => REQUEST_MODEL@,
        NewContentFileType::ResponseModel => RESPONSE_MODEL@,
        NewContentFileType::DataModel => DATA_MODEL@,
    }
}

fn text_then(prefix: &String, suffix: &str) -> (r: String)
    ensures
        r@ == prefix@ + suffix@,
{
    let mut r = prefix.clone();
    r.append(suffix);
    r
}

impl NewContentFileType {
    /// Every kind, each once, in the order `ADD` handles them.
    pub fn get_all_options() -> (r: Vec<NewContentFileType>)
        ensures
            r@ == all_file_types(),
    {
        let r = vec![
            NewContentFileType::Controller,
            NewContentFileType::ServiceClass,
            NewContentFileType::ServiceInterface,
            NewContentFileType::MethodConfClass,
            NewContentFileType::MethodExec,
            NewContentFileType::MethodResHandler,
            NewContentFileType::DependencyInj,
            NewContentFileType::RequestModel,
            NewContentFileType::ResponseModel,
            NewContentFileType::DataModel,
        ];
        assert(r@ =~= all_file_types());
        r
    }

    /// The name of this kind's file for the model's controller, service and
    /// method.
    pub fn get_file_name(self, state: BaseAddModel) -> (r: String)
        ensures
            r@ == file_name_of(
                self,
                state.controller.value@,
                state.service.value@,
                state.method.value@,
            ),
    {
        match self {
            NewContentFileType::Controller => text_then(&state.controller.value, ".Controller.cs"),
            NewContentFileType::ServiceClass => text_then(&state.service.value, "Service.cs"),
            NewContentFileType::ServiceInterface => {
                let i = String::from_str("I");
                let r = text_then(&i, state.service.value.as_str());
                let r2 = text_then(&r, "Service.cs");
                proof {
                    assert(r2@ =~= "I"@ + state.service.value@ + "Service.cs"@);
                }
                r2
            },
            NewContentFileType::MethodConfClass => text_then(&state.method.value, "Config.cs"),
            NewContentFileType::MethodExec => text_then(&state.method.value, "Executor:.cs"),
            NewContentFileType::MethodResHandler => text_then(
                &state.method.value,
                "ResultHandler.cs",
            ),
            NewContentFileType::DependencyInj => String::from_str("RegisterServices.cs"),
            NewContentFileType::RequestModel => text_then(&state.method.value, "RequestModel.cs"),
            NewContentFileType::ResponseModel => text_then(&state.method.value, "ResponseModel.cs"),
            NewContentFileType::DataModel => text_then(&state.method.value, "Model.cs"),
        }
    }

    /// What is done about this kind's file.
    pub fn get_file_action_type(self) -> (r: FileActionType)
        ensures
            r == action_type_of(self),
    {
        match self {
            NewContentFileType::Controller => FileActionType::AskOnFileNotExists,
            NewContentFileType::ServiceClass => FileActionType::AskOnFileExists,
            NewContentFileType::ServiceInterface => FileActionType::AskOnFileNotExists,
            NewContentFileType::MethodConfClass => FileActionType::AskOnFileExists,
            NewContentFileType::MethodExec => FileActionType::AskOnFileExists,
            NewContentFileType::MethodResHandler => FileActionType::AskOnFileExists,
            NewContentFileType::DependencyInj => FileActionType::NoAFileAction,
            NewContentFileType::RequestModel => FileActionType::AskOnFileExists,
            NewContentFileType::ResponseModel => FileActionType::AskOnFileExists,
            NewContentFileType::DataModel => FileActionType::AskOnFileExists,
        }
    }

    /// The folders, relative to the project, where this kind's file belongs:
    /// always exactly one.
    pub fn get_rel_folder_path(self, state: BaseAddModel) -> (r: Vec<String>)
        ensures
            r@.len() == 1,
            r@[0]@ == rel_folder_of(self, state.action_type.value@, state.method.value@),
    {
        let kind = to_upper(state.action_type.value.as_str());
        let if_text = String::from_str("IF");
        let method_path_part = if kind == if_text {
            String::from_str("If")
        } else {
            String::from_str("StoredProcedure")
        };
        let method_folder = text_then(&text_then(&method_path_part, "/"), state.method.value.as_str());
        let folder = match self {
            NewContentFileType::Controller => String::from_str("Controller"),
            NewContentFileType::ServiceClass => String::from_str("Services"),
            NewContentFileType::ServiceInterface => String::from_str("Services/Interfaces"),
            NewContentFileType::MethodConfClass => method_folder,
            NewContentFileType::MethodExec => method_folder,
            NewContentFileType::MethodResHandler => method_folder,
            NewContentFileType::DependencyInj => String::new(),
            NewContentFileType::RequestModel => String::from_str("RequestModels"),
            NewContentFileType::ResponseModel => String::from_str("ResponseModels"),
            NewContentFileType::DataModel => String::from_str("Models"),
        };
        proof {
            reveal_strlit("");
        }
        vec![folder]
    }

    /// The changes made to an existing file of this kind: insert the kind's
    /// text after the first match of the empty pattern.
    pub fn get_replace_pattern_infos(self, state: BaseAddModel) -> (r: Vec<ChangePatternInfo>)
        ensures
            r@.len() == 1,
            r@[0].search_pattern@ == Seq::<char>::empty(),
            r@[0].str_to_replace@ == insert_text_of(self),
    {
        let text = match self {
            NewContentFileType::Controller => CONTROLLER_REPLACE,
            NewContentFileType::ServiceClass => SERVICE_CLASS_REPLACE,
            NewContentFileType::ServiceInterface => SERVICE_INTERFACE_REPLACE,
            NewContentFileType::MethodConfClass => METHOD_CONF_CLASS,
            NewContentFileType::MethodExec => METHOD_EXEC_REPLACE,
            NewContentFileType::MethodResHandler => METHOD_RES_HANDLER_REPLACE,
            NewContentFileType::DependencyInj => DEPENDENCY_INJ_REPLACE,
            NewContentFileType::RequestModel => REQUEST_MODEL,
            NewContentFileType::ResponseModel => RESPONSE_MODEL,
            NewContentFileType::DataModel => DATA_MODEL,
        };
        vec![ChangePatternInfo { str_to_replace: String::from_str(text), search_pattern: String::new() }]
    }

    /// The content of a new file of this kind.
    pub fn get_new_file_content(self) -> (r: String)
        ensures
            r@ == new_content_of(self),
    {
        let text = match self {
            NewContentFileType::Controller => CONTROLLER,
            NewContentFileType::ServiceClass => SERVICE_CLASS,
            NewContentFileType::ServiceInterface => SERVICE_INTERFACE,
            NewContentFileType::MethodConfClass => METHOD_CONF_CLASS,
            NewContentFileType::MethodExec => METHOD_EXEC,
            NewContentFileType::MethodResHandler => METHOD_RES_HANDLER,
            NewContentFileType::DependencyInj => DEPENDENCY_INJ,
            NewContentFileType::RequestModel => REQUEST_MODEL,
            NewContentFileType::ResponseModel => RESPONSE_MODEL,
            NewContentFileType::DataModel => DATA_MODEL,
        };
        String::from_str(text)
    }
}

/// What to do with a result before the next step: go on with its values,
/// stop with the error, stop after a message (flushing the output when the
/// flag is set), stop silently, or ask the user about an existing file or a
/// missing one before going on.
pub enum BindStep<T1, T2, E> {
    Proceed(T1, T2),
    Fail(E),
    Report(String, bool),
    Stop,
    AskOverride(BasicFileInfo, T1, T2),
    AskCreate(BasicFileInfo, T1, T2),
}

/// The message for a missing flag.
pub open spec fn missing_arg_message(arg: Seq<char>) -> Seq<char> {
    "The argument "@ + arg + " is missing!"@
}

/// The message for a required file that does not exist.
pub open spec fn req_file_message(name: Seq<char>) -> Seq<char> {
    "File "@ + name + " does unfortunately not exist"@
}

/// The message for an unknown command.
pub open spec fn invalid_arg_message(arg: Seq<char>) -> Seq<char> {
    "arg "@ + arg + " is invalid"@
}

/// The question asked before overriding an existing file.
pub open spec fn override_question_text(name: Seq<char>) -> Seq<char> {
    "File "@ + name
        + " already exists. If you wish to override it, write 'o' followed by 'ENTER' on the keyboard,\n             if you want to continue, write 'c' followed by 'ENTER' on the keyboard, otherwise click anywhere on the keyboard to exit"@
}

/// The question asked before creating a missing file.
pub open spec fn create_question_text(name: Seq<char>) -> Seq<char> {
    "File "@ + name
        + " does not  exists. If you wish to create it, write 'y' followed by 'ENTER' on the keyboard, otherwise click anywhere on the keyboard to exit"@
}

/// Said when the user's answer ends the run.
pub const EXIT_NOTICE: &'static str = "You chose to exit!";

fn three_part(a: &str, b: &str, c: &str) -> (r: String)
    ensures
        r@ == a@ + b@ + c@,
{
    let mut r = String::from_str(a);
    r.append(b);
    r.append(c);
    r
}

/// The question asked before overriding the file `file_info`.
pub fn override_question(file_info: &BasicFileInfo) -> (r: String)
    ensures
        r@ == override_question_text(file_info.name@),
{
    three_part(
        "File ",
        file_info.name.as_str(),
        " already exists. If you wish to override it, write 'o' followed by 'ENTER' on the keyboard,\n             if you want to continue, write 'c' followed by 'ENTER' on the keyboard, otherwise click anywhere on the keyboard to exit",
    )
}

/// The question asked before creating the file `file_info`.
pub fn create_question(file_info: &BasicFileInfo) -> (r: String)
    ensures
        r@ == create_question_text(file_info.name@),
{
    three_part(
        "File ",
        file_info.name.as_str(),
        " does not  exists. If you wish to create it, write 'y' followed by 'ENTER' on the keyboard, otherwise click anywhere on the keyboard to exit",
    )
}

/// What the answer `line` to the override question decides: `o` (in either
/// case, white space around it ignored) goes on with `a` and `b`, `c` skips
/// the file, anything else ends the run.
pub open spec fn override_answer<T1, T2, E>(a: T1, b: T2, line: Seq<char>) -> TemplateBuildResult<
    T1,
    T2,
    E,
> {
    let word = upper_case(trimmed(line));
    if word == "O"@ {
        TemplateBuildResult::OkRes(a, b)
    } else if word == "C"@ {
        TemplateBuildResult::Continue
    } else {
        TemplateBuildResult::Exit
    }
}

/// What the answer `line` to the create question decides: `y` (in either
/// case, white space around it ignored) goes on with `a` and `b`, anything
/// else ends the run.
pub open spec fn create_answer<T1, T2, E>(a: T1, b: T2, line: Seq<char>) -> TemplateBuildResult<
    T1,
    T2,
    E,
> {
    if upper_case(trimmed(line)) == "Y"@ {
        TemplateBuildResult::OkRes(a, b)
    } else {
        TemplateBuildResult::Exit
    }
}

/// The user's answer to the override question, as the line read from the
/// console: the line without its surrounding white space (its line end
/// among it), in upper case, is compared with `O` (go on with `a` and `b`)
/// and `C` (skip the file); anything else ends the run.
pub fn file_already_exists_action<T1, T2, E>(a: T1, b: T2, answer: &str) -> (r:
    TemplateBuildResult<T1, T2, E>)
    ensures
        r == override_answer::<T1, T2, E>(a, b, answer@),
        upper_case(trimmed(answer@)) == "O"@ ==> r == TemplateBuildResult::<T1, T2, E>::OkRes(a, b),
        upper_case(trimmed(answer@)) == "C"@ ==> r is Continue,
        upper_case(trimmed(answer@)) != "O"@ && upper_case(trimmed(answer@)) != "C"@ ==> r is Exit,
{
    let word = trim(answer);
    let up = to_upper(word.as_str());
    proof {
        reveal_strlit("O");
        reveal_strlit("C");
        assert("O"@[0] != "C"@[0]);
    }
    if up == String::from_str("O") {
        TemplateBuildResult::OkRes(a, b)
    } else if up == String::from_str("C") {
        TemplateBuildResult::Continue
    } else {
        TemplateBuildResult::Exit
    }
}

/// The user's answer to the create question, as the line read from the
/// console: the line without its surrounding white space (its line end
/// among it), in upper case, is compared with `Y` (go on with `a` and `b`);
/// anything else ends the run.
pub fn file_does_not_exust_action<T1, T2, E>(a: T1, b: T2, answer: &str) -> (r:
    TemplateBuildResult<T1, T2, E>)
    ensures
        r == create_answer::<T1, T2, E>(a, b, answer@),
        upper_case(trimmed(answer@)) == "Y"@ ==> r == TemplateBuildResult::<T1, T2, E>::OkRes(a, b),
        upper_case(trimmed(answer@)) != "Y"@ ==> r is Exit,
{
    let word = trim(answer);
    let up = to_upper(word.as_str());
    if up == String::from_str("Y") {
        TemplateBuildResult::OkRes(a, b)
    } else {
        TemplateBuildResult::Exit
    }
}

/// The step that ends every chain: it ignores its values and stops.
pub fn id_func<T1, T2, E>(_a: T1, _b: T2) -> (r: TemplateBuildResult<T1, T2, E>)
    ensures
        r is Exit,
{
    TemplateBuildResult::Exit
}

/// How the step applied to one item of a collection ended: its value is
/// kept for the item, the item is skipped, or the whole collection stops
/// with the given result.
pub enum ItemEnd<V, R> {
    Kept(V),
    Skipped,
    Stopped(R),
}

/// How the result of the step for one item is taken while collecting: it
/// ends the item, or the user is first asked about a file (the flag tells
/// whether a "continue" answer skips the item).
pub enum CollectStep<T3, T2, E, R> {
    Done(ItemEnd<T3, TemplateBuildResult<R, T2, E>>),
    Ask(BasicFileInfo, T3, T2, bool),
}

/// How the result of the step for one item is taken while collecting:
/// `OkRes` keeps its value, a missing file asks the create question, an
/// existing one too (there a "continue" answer skips the item), and any
/// other result stops the collection with that result.
pub fn collect_step<T3, T2, E, R>(res: TemplateBuildResult<T3, T2, E>) -> (r: CollectStep<
    T3,
    T2,
    E,
    R,
>)
    ensures
        match res {
            TemplateBuildResult::OkRes(v, _) => r == CollectStep::<T3, T2, E, R>::Done(
                ItemEnd::Kept(v),
            ),
            TemplateBuildResult::FileDoesNotExist(f, v, p) => r == CollectStep::<
                T3,
                T2,
                E,
                R,
            >::Ask(f, v, p, false),
            TemplateBuildResult::FileAlreadyExists(f, v, p) => r == CollectStep::<
                T3,
                T2,
                E,
                R,
            >::Ask(f, v, p, true),
            TemplateBuildResult::GeneralError(e) => r == CollectStep::<T3, T2, E, R>::Done(
                ItemEnd::Stopped(TemplateBuildResult::GeneralError(e)),
            ),
            TemplateBuildResult::MissingArg(m) => r == CollectStep::<T3, T2, E, R>::Done(
                ItemEnd::Stopped(TemplateBuildResult::MissingArg(m)),
            ),
            TemplateBuildResult::Exit => r == CollectStep::<T3, T2, E, R>::Done(
                ItemEnd::Stopped(TemplateBuildResult::Exit),
            ),
            TemplateBuildResult::ReqFileMissing(n) => r == CollectStep::<T3, T2, E, R>::Done(
                ItemEnd::Stopped(TemplateBuildResult::ReqFileMissing(n)),
            ),
            TemplateBuildResult::InvalidArg(a) => r == CollectStep::<T3, T2, E, R>::Done(
                ItemEnd::Stopped(TemplateBuildResult::InvalidArg(a)),
            ),
            TemplateBuildResult::ShowHelp => r == CollectStep::<T3, T2, E, R>::Done(
                ItemEnd::Stopped(TemplateBuildResult::ShowHelp),
            ),
            TemplateBuildResult::Continue => r == CollectStep::<T3, T2, E, R>::Done(
                ItemEnd::Stopped(TemplateBuildResult::Continue),
            ),
        },
{
    match res {
        TemplateBuildResult::OkRes(v, _) => CollectStep::Done(ItemEnd::Kept(v)),
        TemplateBuildResult::FileDoesNotExist(f, v, p) => CollectStep::Ask(f, v, p, false),
        TemplateBuildResult::FileAlreadyExists(f, v, p) => CollectStep::Ask(f, v, p, true),
        TemplateBuildResult::GeneralError(e) => CollectStep::Done(
            ItemEnd::Stopped(TemplateBuildResult::GeneralError(e)),
        ),
        TemplateBuildResult::MissingArg(m) => CollectStep::Done(
            ItemEnd::Stopped(TemplateBuildResult::MissingArg(m)),
        ),
        TemplateBuildResult::Exit => CollectStep::Done(ItemEnd::Stopped(TemplateBuildResult::Exit)),
        TemplateBuildResult::ReqFileMissing(n) => CollectStep::Done(
            ItemEnd::Stopped(TemplateBuildResult::ReqFileMissing(n)),
        ),
        TemplateBuildResult::InvalidArg(a) => CollectStep::Done(
            ItemEnd::Stopped(TemplateBuildResult::InvalidArg(a)),
        ),
        TemplateBuildResult::ShowHelp => CollectStep::Done(
            ItemEnd::Stopped(TemplateBuildResult::ShowHelp),
        ),
        TemplateBuildResult::Continue => CollectStep::Done(
            ItemEnd::Stopped(TemplateBuildResult::Continue),
        ),
    }
}

/// How the answer about a file (the result of asking) ends the item while
/// collecting: going on keeps the value; "continue" skips the item only
/// where `continue_skips` is set; anything else stops the collection with
/// `Exit`.
pub fn collect_answer<T3, T2, E, R>(res: TemplateBuildResult<T3, T2, E>, continue_skips: bool) -> (r:
    ItemEnd<T3, TemplateBuildResult<R, T2, E>>)
    ensures
        match res {
            TemplateBuildResult::OkRes(v, _) => r == ItemEnd::<T3, TemplateBuildResult<R, T2, E>>::Kept(v),
            TemplateBuildResult::Continue => if continue_skips {
                r is Skipped
            } else {
                r == ItemEnd::<T3, TemplateBuildResult<R, T2, E>>::Stopped(TemplateBuildResult::Exit)
            },
            _ => r == ItemEnd::<T3, TemplateBuildResult<R, T2, E>>::Stopped(TemplateBuildResult::Exit),
        },
{
    match res {
        TemplateBuildResult::OkRes(v, _) => ItemEnd::Kept(v),
        TemplateBuildResult::Continue => if continue_skips {
            ItemEnd::Skipped
        } else {
            ItemEnd::Stopped(TemplateBuildResult::Exit)
        },
        _ => ItemEnd::Stopped(TemplateBuildResult::Exit),
    }
}

/// The entry that an item's end adds: the item with its value where it was
/// kept, nothing otherwise.
pub open spec fn kept_of<K, V, R>(item: K, end: ItemEnd<V, R>) -> Seq<(K, V)> {
    match end {
        ItemEnd::Kept(v) => seq![(item, v)],
        _ => Seq::empty(),
    }
}

/// The result an item's end stops the collection with, if it does.
pub open spec fn stop_of<V, R>(end: ItemEnd<V, R>) -> Option<R> {
    match end {
        ItemEnd::Stopped(x) => Some(x),
        _ => None,
    }
}

/// The entries kept over the items, in the items' order (`ends[i]` is how
/// the step for `items[i]` ended).
pub open spec fn kept_entries<K, V, R>(items: Seq<K>, ends: Seq<ItemEnd<V, R>>) -> Seq<(K, V)>
    decreases items.len(),
{
    if items.len() == 0 {
        Seq::empty()
    } else {
        kept_entries(items.drop_last(), ends.drop_last()) + kept_of(items.last(), ends.last())
    }
}

/// The first result that stops the collection, if any does.
pub open spec fn first_stop<V, R>(ends: Seq<ItemEnd<V, R>>) -> Option<R>
    decreases ends.len(),
{
    if ends.len() == 0 {
        None
    } else {
        match first_stop(ends.drop_last()) {
            Some(x) => Some(x),
            None => stop_of(ends.last()),
        }
    }
}

/// The map that entries make: a later entry for a key replaces an earlier
/// one.
pub open spec fn entries_map<K, V>(entries: Seq<(K, V)>) -> Map<K, V>
    decreases entries.len(),
{
    if entries.len() == 0 {
        Map::empty()
    } else {
        entries_map(entries.drop_last()).insert(entries.last().0, entries.last().1)
    }
}

/// Takes the end of the step for `item`: a kept value is added to `kept`
/// with its item; a stop is handed back, and the collection ends with it.
pub fn collect_item<K, V, R>(kept: &mut Vec<(K, V)>, item: K, end: ItemEnd<V, R>) -> (r: Option<R>)
    ensures
        final(kept)@ == old(kept)@ + kept_of(item, end),
        r == stop_of(end),
{
    match end {
        ItemEnd::Kept(v) => {
            kept.push((item, v));
            None
        },
        ItemEnd::Skipped => None,
        ItemEnd::Stopped(x) => Some(x),
    }
}

/// Law: collecting over items stops with the first stop among the items'
/// ends, and only where some item stops.
pub proof fn law_collection_stops_at_first<V, R>(ends: Seq<ItemEnd<V, R>>)
    ensures
        first_stop(ends) is None <==> forall|i: int| 0 <= i < ends.len() ==> !(#[trigger] ends[i] is Stopped),
        forall|s: int|
            0 <= s < ends.len() && #[trigger] ends[s] is Stopped && (forall|j: int|
                0 <= j < s ==> !(#[trigger] ends[j] is Stopped)) ==> first_stop(ends) == stop_of(
                ends[s],
            ),
    decreases ends.len(),
{
    if ends.len() > 0 {
        let p = ends.drop_last();
        law_collection_stops_at_first(p);
        assert forall|i: int| 0 <= i < p.len() implies p[i] == ends[i] by {}
    }
}

/// Law: the map collected from the items holds exactly the items whose value
/// was kept, each with the value kept last for it.
pub proof fn law_collection_keeps_last_values<K, V, R>(items: Seq<K>, ends: Seq<ItemEnd<V, R>>)
    requires
        items.len() == ends.len(),
    ensures
        forall|k: K|
            entries_map(kept_entries(items, ends)).dom().contains(k) <==> exists|i: int|
                0 <= i < items.len() && items[i] == k && #[trigger] ends[i] is Kept,
        forall|i: int|
            0 <= i < items.len() && #[trigger] ends[i] is Kept && (forall|j: int|
                i < j < items.len() && items[j] == items[i] ==> !(#[trigger] ends[j] is Kept))
                ==> entries_map(kept_entries(items, ends))[items[i]] == ends[i]->Kept_0,
    decreases items.len(),
{
    if items.len() > 0 {
        let ip = items.drop_last();
        let ep = ends.drop_last();
        let n = items.len() - 1;
        law_collection_keeps_last_values(ip, ep);
        let prev = kept_entries(ip, ep);
        let es = kept_entries(items, ends);
        match ends.last() {
            ItemEnd::Kept(v) => {
                assert(es.drop_last() =~= prev);
                assert(es.last() == (items.last(), v));
            },
            _ => {
                assert(es =~= prev);
            },
        }
        assert forall|k: K|
            entries_map(es).dom().contains(k) <==> exists|i: int|
                0 <= i < items.len() && items[i] == k && #[trigger] ends[i] is Kept by {
            if entries_map(es).dom().contains(k) {
                if !(items[n] == k && ends[n] is Kept) {
                    assert(entries_map(prev).dom().contains(k));
                    let i = choose|i: int| 0 <= i < ip.len() && ip[i] == k && #[trigger] ep[i] is Kept;
                    assert(items[i] == k && ends[i] is Kept);
                }
            } else {
                assert forall|i: int| 0 <= i < items.len() && items[i] == k implies !(
                #[trigger] ends[i] is Kept) by {
                    if i < n {
                        assert(ip[i] == items[i] && ep[i] == ends[i]);
                    }
                }
            }
        }
        assert forall|i: int|
            0 <= i < items.len() && #[trigger] ends[i] is Kept && (forall|j: int|
                i < j < items.len() && items[j] == items[i] ==> !(#[trigger] ends[j] is Kept))
                implies entries_map(es)[items[i]] == ends[i]->Kept_0 by {
            if i < n {
                assert(ip[i] == items[i] && ep[i] == ends[i]);
                assert forall|j: int| i < j < ip.len() && ip[j] == ip[i] implies !(
                #[trigger] ep[j] is Kept) by {
                    assert(ip[j] == items[j] && ep[j] == ends[j]);
                }
            }
        }
    }
}

impl<T1, T2, E> TemplateBuildResult<T1, T2, E> {
    /// What the next step of a chain does with this result: `OkRes` hands its
    /// values on; an error stops the chain (with its message); `Exit` and
    /// `Continue` stop it silently; an existing or missing file asks the user
    /// first.
    pub fn bind_step(self) -> (r: BindStep<T1, T2, E>)
        ensures
            match self {
                TemplateBuildResult::OkRes(a, b) => r == BindStep::<T1, T2, E>::Proceed(a, b),
                TemplateBuildResult::GeneralError(e) => r == BindStep::<T1, T2, E>::Fail(e),
                TemplateBuildResult::MissingArg(info) => r matches BindStep::Report(m, flush)
                    && m@ == missing_arg_message(info.arg_nqme@) && !flush,
                TemplateBuildResult::Exit => r is Stop,
                TemplateBuildResult::FileAlreadyExists(f, a, b) => r == BindStep::<
                    T1,
                    T2,
                    E,
                >::AskOverride(f, a, b),
                TemplateBuildResult::FileDoesNotExist(f, a, b) => r == BindStep::<
                    T1,
                    T2,
                    E,
                >::AskCreate(f, a, b),
                TemplateBuildResult::ReqFileMissing(name) => r matches BindStep::Report(m, flush)
                    && m@ == req_file_message(name@) && !flush,
                TemplateBuildResult::Continue => r is Stop,
                TemplateBuildResult::InvalidArg(arg) => r matches BindStep::Report(m, flush) && m@
                    == invalid_arg_message(arg@) && flush,
                TemplateBuildResult::ShowHelp => r matches BindStep::Report(m, flush) && m@
                    == HELP_TEXT@ && flush,
            },
    {
        match self {
            TemplateBuildResult::OkRes(a, b) => BindStep::Proceed(a, b),
            TemplateBuildResult::Continue => BindStep::Stop,
            TemplateBuildResult::GeneralError(e) => BindStep::Fail(e),
            TemplateBuildResult::MissingArg(info) => BindStep::Report(
                three_part("The argument ", info.arg_nqme.as_str(), " is missing!"),
                false,
            ),
            TemplateBuildResult::Exit => BindStep::Stop,
            TemplateBuildResult::FileAlreadyExists(f, a, b) => BindStep::AskOverride(f, a, b),
            TemplateBuildResult::FileDoesNotExist(f, a, b) => BindStep::AskCreate(f, a, b),
            TemplateBuildResult::ReqFileMissing(name) => BindStep::Report(
                three_part("File ", name.as_str(), " does unfortunately not exist"),
                false,
            ),
            TemplateBuildResult::InvalidArg(arg) => BindStep::Report(
                three_part("arg ", arg.as_str(), " is invalid"),
                true,
            ),
            TemplateBuildResult::ShowHelp => BindStep::Report(String::from_str(HELP_TEXT), true),
        }
    }

    /// Drops the result.
    pub fn ignore(self) {
    }
}

/// One thing written to the console while a chain of steps runs: a step's
/// error, a text, or the report of a console line that could not be read.
pub enum Written<E> {
    Error(E),
    Text(Seq<char>),
    ReadFailure,
}

/// How running a step on the console ends: its result, the console lines
/// not read yet (`None` is a line whose reading fails), and what it wrote,
/// in order.
#[verifier::ext_equal]
pub struct Run<T1, T2, E> {
    pub result: TemplateBuildResult<T1, T2, E>,
    pub rest: Seq<Option<Seq<char>>>,
    pub written: Seq<Written<E>>,
}

/// The next console line: where none is left, reading gives an empty line.
pub open spec fn first_line(input: Seq<Option<Seq<char>>>) -> Option<Seq<char>> {
    if input.len() == 0 {
        Some(Seq::empty())
    } else {
        input[0]
    }
}

/// The console lines left after reading one.
pub open spec fn after_first_line(input: Seq<Option<Seq<char>>>) -> Seq<Option<Seq<char>>> {
    if input.len() == 0 {
        input
    } else {
        input.drop_first()
    }
}

/// What asking a question writes: the question, then the report of a failed
/// read, or the exit notice where the answer ends the run.
pub open spec fn asked<T1, T2, E>(
    question: Seq<char>,
    line: Option<Seq<char>>,
    answer: TemplateBuildResult<T1, T2, E>,
) -> Seq<Written<E>> {
    match line {
        None => seq![Written::Text(question), Written::ReadFailure],
        Some(_) => if answer is Exit {
            seq![Written::Text(question), Written::Text(EXIT_NOTICE@)]
        } else {
            seq![Written::Text(question)]
        },
    }
}

/// A run that ends the chain after writing `written`.
pub open spec fn stopped<T1, T2, E>(input: Seq<Option<Seq<char>>>, written: Seq<Written<E>>) -> Run<
    T1,
    T2,
    E,
> {
    Run { result: TemplateBuildResult::Exit, rest: input, written }
}

/// `run`, with `written` written before it.
pub open spec fn after<T1, T2, E>(written: Seq<Written<E>>, run: Run<T1, T2, E>) -> Run<T1, T2, E> {
    Run { result: run.result, rest: run.rest, written: written + run.written }
}

/// Whether binding `r` asks the user first.
pub open spec fn asks<T1, T2, E>(r: TemplateBuildResult<T1, T2, E>) -> nat {
    match r {
        TemplateBuildResult::FileAlreadyExists(..) => 1,
        TemplateBuildResult::FileDoesNotExist(..) => 1,
        _ => 0,
    }
}

/// Binding the step `f` to the result `r` on the console lines `input`, as a
/// chain runs when `bind_step`'s decision on `r` is carried out: `OkRes` runs
/// `f` on its values; an error writes its message and ends the chain; `Exit`
/// and `Continue` end it silently; an existing or a missing file writes the
/// question, reads the answer, takes it as `file_already_exists_action` or
/// `file_does_not_exust_action` does, and binds `f` to what the answer gives.
pub open spec fn bind_run<T1, T2, T3, T4, E>(
    r: TemplateBuildResult<T1, T2, E>,
    input: Seq<Option<Seq<char>>>,
    f: spec_fn(T1, T2, Seq<Option<Seq<char>>>) -> Run<T3, T4, E>,
) -> Run<T3, T4, E>
    decreases asks(r),
{
    match r {
        TemplateBuildResult::OkRes(a, b) => f(a, b, input),
        TemplateBuildResult::GeneralError(e) => stopped(input, seq![Written::Error(e)]),
        TemplateBuildResult::MissingArg(info) => stopped(
            input,
            seq![Written::Text(missing_arg_message(info.arg_nqme@))],
        ),
        TemplateBuildResult::Exit => stopped(input, Seq::empty()),
        TemplateBuildResult::Continue => stopped(input, Seq::empty()),
        TemplateBuildResult::ReqFileMissing(name) => stopped(
            input,
            seq![Written::Text(req_file_message(name@))],
        ),
        TemplateBuildResult::InvalidArg(arg) => stopped(
            input,
            seq![Written::Text(invalid_arg_message(arg@))],
        ),
        TemplateBuildResult::ShowHelp => stopped(input, seq![Written::Text(HELP_TEXT@)]),
        TemplateBuildResult::FileAlreadyExists(file, a, b) => {
            let line = first_line(input);
            let answer = match line {
                Some(l) => override_answer::<T1, T2, E>(a, b, l),
                None => TemplateBuildResult::Exit,
            };
            after(
                asked(override_question_text(file.name@), line, answer),
                bind_run(answer, after_first_line(input), f),
            )
        },
        TemplateBuildResult::FileDoesNotExist(file, a, b) => {
            let line = first_line(input);
            let answer = match line {
                Some(l) => create_answer::<T1, T2, E>(a, b, l),
                None => TemplateBuildResult::Exit,
            };
            after(
                asked(create_question_text(file.name@), line, answer),
                bind_run(answer, after_first_line(input), f),
            )
        },
    }
}

/// Binding the step `g` to the result of the run `x`, on the lines it left;
/// what `x` wrote comes first.
pub open spec fn then_run<T1, T2, T3, T4, E>(
    x: Run<T1, T2, E>,
    g: spec_fn(T1, T2, Seq<Option<Seq<char>>>) -> Run<T3, T4, E>,
) -> Run<T3, T4, E> {
    after(x.written, bind_run(x.result, x.rest, g))
}

/// Law: chaining steps is associative.  Binding `f` to a result and then `g`
/// to what comes out runs as binding to it the step "`f`, then `g`": the same
/// result, the same console lines read and the same text written, in the
/// same order, whatever the user answers.
pub proof fn law_bind_associative<T1, T2, T3, T4, T5, T6, E>(
    r: TemplateBuildResult<T1, T2, E>,
    input: Seq<Option<Seq<char>>>,
    f: spec_fn(T1, T2, Seq<Option<Seq<char>>>) -> Run<T3, T4, E>,
    g: spec_fn(T3, T4, Seq<Option<Seq<char>>>) -> Run<T5, T6, E>,
)
    ensures
        then_run(bind_run(r, input, f), g) == bind_run(
            r,
            input,
            (|a: T1, b: T2, rest: Seq<Option<Seq<char>>>| then_run(f(a, b, rest), g)),
        ),
    decreases asks(r),
{
    let fg = |a: T1, b: T2, rest: Seq<Option<Seq<char>>>| then_run(f(a, b, rest), g);
    match r {
        TemplateBuildResult::OkRes(a, b) => {},
        TemplateBuildResult::FileAlreadyExists(file, a, b) => {
            let line = first_line(input);
            let answer = match line {
                Some(l) => override_answer::<T1, T2, E>(a, b, l),
                None => TemplateBuildResult::Exit,
            };
            law_bind_associative(answer, after_first_line(input), f, g);
            let w = asked(override_question_text(file.name@), line, answer);
            let x = bind_run(answer, after_first_line(input), f);
            let y = bind_run(x.result, x.rest, g);
            assert((w + x.written) + y.written =~= w + (x.written + y.written));
        },
        TemplateBuildResult::FileDoesNotExist(file, a, b) => {
            let line = first_line(input);
            let answer = match line {
                Some(l) => create_answer::<T1, T2, E>(a, b, l),
                None => TemplateBuildResult::Exit,
            };
            law_bind_associative(answer, after_first_line(input), f, g);
            let w = asked(create_question_text(file.name@), line, answer);
            let x = bind_run(answer, after_first_line(input), f);
            let y = bind_run(x.result, x.rest, g);
            assert((w + x.written) + y.written =~= w + (x.written + y.written));
        },
        _ => {
            let x = bind_run(r, input, f);
            assert(then_run(x, g).written =~= bind_run(r, input, fg).written);
        },
    }
}

/// Law: `get_all_options` lists every kind of file, each exactly once.
pub proof fn law_all_options_complete(t: NewContentFileType)
    ensures
        all_file_types().contains(t),
        forall|i: int, j: int|
            0 <= i < j < all_file_types().len() ==> all_file_types()[i] != all_file_types()[j],
{
    let all = all_file_types();
    match t {
        NewContentFileType::Controller => assert(all[0] == t),
        NewContentFileType::ServiceClass => assert(all[1] == t),
        NewContentFileType::ServiceInterface => assert(all[2] == t),
        NewContentFileType::MethodConfClass => assert(all[3] == t),
        NewContentFileType::MethodExec => assert(all[4] == t),
        NewContentFileType::MethodResHandler => assert(all[5] == t),
        NewContentFileType::DependencyInj => assert(all[6] == t),
        NewContentFileType::RequestModel => assert(all[7] == t),
        NewContentFileType::ResponseModel => assert(all[8] == t),
        NewContentFileType::DataModel => assert(all[9] == t),
    }
}

/// Law: a method's three files (configuration class, executor, result
/// handler) go in one folder, the method's folder under `If` when the method
/// kind reads `IF` in upper case and under `StoredProcedure` otherwise.
pub proof fn law_method_files_share_a_folder(action_type: Seq<char>, method: Seq<char>)
    ensures
        rel_folder_of(NewContentFileType::MethodConfClass, action_type, method) == rel_folder_of(
            NewContentFileType::MethodExec,
            action_type,
            method,
        ),
        rel_folder_of(NewContentFileType::MethodExec, action_type, method) == rel_folder_of(
            NewContentFileType::MethodResHandler,
            action_type,
            method,
        ),
        upper_case(action_type) == "IF"@ ==> rel_folder_of(
            NewContentFileType::MethodConfClass,
            action_type,
            method,
        ) == "If/"@ + method,
        upper_case(action_type) != "IF"@ ==> rel_folder_of(
            NewContentFileType::MethodConfClass,
            action_type,
            method,
        ) == "StoredProcedure/"@ + method,
{
    reveal_strlit("If");
    reveal_strlit("/");
    reveal_strlit("If/");
    reveal_strlit("StoredProcedure");
    reveal_strlit("StoredProcedure/");
    assert("If"@ + "/"@ =~= "If/"@);
    assert("StoredProcedure"@ + "/"@ =~= "StoredProcedure/"@);
    assert("If"@ + "/"@ + method =~= "If/"@ + method);
    assert("StoredProcedure"@ + "/"@ + method =~= "StoredProcedure/"@ + method);
}

} // verus!
