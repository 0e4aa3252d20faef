//! `NEW`: the model of the project to create, the folders involved, and the
//! renaming of the template (`WebApiTemplate`) to the project's name in
//! entry names and file contents.
use vstd::prelude::*;
use crate::definitions::{ArgInfo, ChangeFileInfo, ChangePatternInfo, NewTemplateModel, TemplateBuildResult};
use crate::misc::{
    arg_lookup, check_if_arg_exists, get_optional_arg, lookup_outcome, optional_value, texts,
};
use crate::pattern::{all_matches, compile, regex_all_matches, regex_compile_error};
use crate::text::{
    ends_with, has_suffix, join_path, joined_path, lemma_replaced_absent, lemma_replaced_same,
    occurs_in, replace_all, replaced,
};

verus! {

/// The name the template project carries, replaced by the new project's name.
pub const TEMPLATE_NAME: &'static str = "WebApiTemplate";

/// The file name of the zipped template.
pub const TEMPLATE_ZIP: &'static str = "WebApiTemplate.zip";

/// The pattern of the lines of `.cs` and `.csproj` files that name the template.
pub const CODE_PATTERN: &'static str = r"(using WebApiTemplate|namespace WebApiTemplate).*";

/// The pattern of the lines of `.sln` files that name the template.
pub const SOLUTION_PATTERN: &'static str = r"Project\(.*";

/// The flag that names the project to create.
pub const NAME_FLAG: &'static str = "-n";

/// The flag that gives the folder to create the project in.
pub const DESTINATION_FLAG: &'static str = "-p";

/// Looks up the name of the project to create: the `-n` flag and its value,
/// which `NEW` requires.
pub fn template_name_arg(args: Vec<String>) -> (r: TemplateBuildResult<ArgInfo, Vec<String>, String>)
    ensures
        lookup_outcome(arg_lookup(texts(args@), NAME_FLAG@), NAME_FLAG@, args@, r),
{
    check_if_arg_exists(String::from_str(NAME_FLAG), args)
}

/// The folder given with `-p`, if the words hold one.
pub fn destination_arg(args: Vec<String>) -> (r: Option<String>)
    ensures
        match optional_value(texts(args@), DESTINATION_FLAG@) {
            Some(v) => r matches Some(t) && t@ == v,
            None => r is None,
        },
{
    get_optional_arg(String::from_str(DESTINATION_FLAG), args)
}

/// The model of the project named by `arg_info`'s value; the words are
/// handed on.
pub fn get_new_template_name_arg(arg_info: ArgInfo, args: Vec<String>) -> (r: TemplateBuildResult<
    Vec<String>,
    NewTemplateModel,
    String,
>)
    ensures
        r matches TemplateBuildResult::OkRes(rest, state) && rest@ == args@ && state.name@
            == arg_info.value@ && state.new_template_path@ == Seq::<char>::empty()
            && state.source_dir@ == Seq::<char>::empty(),
{
    let state = NewTemplateModel {
        new_template_path: String::new(),
        name: arg_info.value,
        source_dir: String::new(),
    };
    TemplateBuildResult::OkRes(args, state)
}

/// The message for a destination folder that does not exist.
pub open spec fn missing_folder_message(path: Seq<char>) -> Seq<char> {
    "Folder "@ + path + " does not exist"@
}

/// The message for a template file that does not exist.
pub open spec fn missing_file_message(path: Seq<char>) -> Seq<char> {
    "File "@ + path + " does not exist"@
}

/// Takes `path` as the destination folder when it is a folder
/// (`path_is_dir`), keeping the rest of the model.
pub fn validate_template_dest_path(path: String, state: NewTemplateModel, path_is_dir: bool) -> (r:
    TemplateBuildResult<(), NewTemplateModel, String>)
    ensures
        path_is_dir ==> (r matches TemplateBuildResult::OkRes(_, s) && s.new_template_path@
            == path@ && s.name == state.name && s.source_dir == state.source_dir),
        !path_is_dir ==> (r matches TemplateBuildResult::GeneralError(e) && e@
            == missing_folder_message(path@)),
{
    if path_is_dir {
        let new_state = NewTemplateModel {
            source_dir: state.source_dir,
            name: state.name,
            new_template_path: path,
        };
        TemplateBuildResult::OkRes((), new_state)
    } else {
        let mut m = String::from_str("Folder ");
        m.append(path.as_str());
        m.append(" does not exist");
        TemplateBuildResult::GeneralError(m)
    }
}

/// Keeps the model when the template file exists (`source_exists`).
pub fn validate_template_path(state: NewTemplateModel, source_exists: bool) -> (r: TemplateBuildResult<
    (),
    NewTemplateModel,
    String,
>)
    ensures
        source_exists ==> r == TemplateBuildResult::<(), NewTemplateModel, String>::OkRes(
            (),
            state,
        ),
        !source_exists ==> (r matches TemplateBuildResult::GeneralError(e) && e@
            == missing_file_message(state.source_dir@)),
{
    if source_exists {
        TemplateBuildResult::OkRes((), state)
    } else {
        let mut m = String::from_str("File ");
        m.append(state.source_dir.as_str());
        m.append(" does not exist");
        TemplateBuildResult::GeneralError(m)
    }
}

/// Takes the template file from the setting `template_path` (the value of
/// `TEMPLATE_PATH`, or the message of why it could not be read).
pub fn get_template_zip_path(state: NewTemplateModel, template_path: Result<String, String>) -> (r:
    TemplateBuildResult<(), NewTemplateModel, String>)
    ensures
        match template_path {
            Ok(p) => r matches TemplateBuildResult::OkRes(_, s) && s.source_dir == p && s.name
                == state.name && s.new_template_path == state.new_template_path,
            Err(e) => r == TemplateBuildResult::<(), NewTemplateModel, String>::GeneralError(e),
        },
{
    match template_path {
        Ok(path) => {
            let new_state = NewTemplateModel {
                source_dir: path,
                name: state.name,
                new_template_path: state.new_template_path,
            };
            TemplateBuildResult::OkRes((), new_state)
        },
        Err(err) => TemplateBuildResult::GeneralError(err),
    }
}

/// The folder the template is unzipped to: the template file's path with
/// `WebApiTemplate.zip` replaced by `temp`.
pub fn template_temp_folder(state: &NewTemplateModel) -> (r: String)
    ensures
        r@ == replaced(state.source_dir@, TEMPLATE_ZIP@, "temp"@),
{
    replace_all(state.source_dir.as_str(), TEMPLATE_ZIP, "temp")
}

/// The folder of the new project, written as destination, `/`, name.
pub fn new_template_folder(state: &NewTemplateModel) -> (r: String)
    ensures
        r@ == state.new_template_path@ + "/"@ + state.name@,
{
    let mut r = state.new_template_path.clone();
    r.append("/");
    r.append(state.name.as_str());
    r
}

/// The folder of the new project, as the destination path joined with the
/// name.
pub fn template_dir(state: &NewTemplateModel) -> (r: String)
    ensures
        r@ == joined_path(state.new_template_path@, state.name@),
{
    join_path(state.new_template_path.as_str(), state.name.as_str())
}

/// The name a template entry gets in the new project.
pub fn renamed_entry(entry_name: &str, new_name: &str) -> (r: String)
    ensures
        r@ == replaced(entry_name@, TEMPLATE_NAME@, new_name@),
{
    replace_all(entry_name, TEMPLATE_NAME, new_name)
}

/// The change applied to a template file, by its name: the code pattern for
/// `.cs` and `.csproj` files, the solution pattern for `.sln` files, none
/// for other files.  The text is the project's name.
pub open spec fn change_pattern_is(file_name: Seq<char>, name: Seq<char>, r: Option<
    ChangePatternInfo,
>) -> bool {
    if has_suffix(file_name, ".cs"@) || has_suffix(file_name, ".csproj"@) {
        r matches Some(c) && c.search_pattern@ == CODE_PATTERN@ && c.str_to_replace@ == name
    } else if has_suffix(file_name, ".sln"@) {
        r matches Some(c) && c.search_pattern@ == SOLUTION_PATTERN@ && c.str_to_replace@ == name
    } else {
        r is None
    }
}

/// The change applied to the template file `file_name`, if any.
pub fn template_change_pattern(file_name: &str, state: &NewTemplateModel) -> (r: Option<
    ChangePatternInfo,
>)
    ensures
        change_pattern_is(file_name@, state.name@, r),
{
    if ends_with(file_name, ".cs") || ends_with(file_name, ".csproj") {
        Some(
            ChangePatternInfo {
                search_pattern: String::from_str(CODE_PATTERN),
                str_to_replace: state.name.clone(),
            },
        )
    } else if ends_with(file_name, ".sln") {
        Some(
            ChangePatternInfo {
                search_pattern: String::from_str(SOLUTION_PATTERN),
                str_to_replace: state.name.clone(),
            },
        )
    } else {
        None
    }
}

/// `content` after each matched text, in order, has its occurrences replaced
/// by the same text with the template's name replaced by `name`.
pub open spec fn rename_matches(content: Seq<char>, matches: Seq<Seq<char>>, name: Seq<char>) -> Seq<
    char,
>
    decreases matches.len(),
{
    if matches.len() == 0 {
        content
    } else {
        let m = matches.last();
        replaced(rename_matches(content, matches.drop_last(), name), m, replaced(m, TEMPLATE_NAME@, name))
    }
}

/// What rewriting a template file gives: the contents written, in order, and
/// the message of a pattern that does not compile, which stops the rest.
pub enum RewriteOutcome {
    Wrote(Seq<Seq<char>>),
    Failed(Seq<Seq<char>>, Seq<char>),
}

/// For each pattern in order, the original content with the template's name
/// replaced in every text the pattern matches; a pattern that does not
/// compile stops there.
pub open spec fn rewrites_of(original: Seq<char>, patterns: Seq<Seq<char>>, name: Seq<char>) -> RewriteOutcome
    decreases patterns.len(),
{
    if patterns.len() == 0 {
        RewriteOutcome::Wrote(Seq::empty())
    } else {
        match rewrites_of(original, patterns.drop_last(), name) {
            RewriteOutcome::Failed(w, e) => RewriteOutcome::Failed(w, e),
            RewriteOutcome::Wrote(w) => match regex_compile_error(patterns.last()) {
                Some(e) => RewriteOutcome::Failed(w, e),
                None => RewriteOutcome::Wrote(
                    w.push(
                        rename_matches(original, regex_all_matches(patterns.last(), original), name),
                    ),
                ),
            },
        }
    }
}

/// The patterns of a file's changes.
pub open spec fn patterns_of(infos: Seq<ChangePatternInfo>) -> Seq<Seq<char>> {
    infos.map_values(|c: ChangePatternInfo| c.search_pattern@)
}

/// The contents written to a template file, one per change in order, and the
/// message of the first pattern that does not compile (after which nothing
/// more is written).
pub fn template_rewrites(f_info: &ChangeFileInfo, state: &NewTemplateModel) -> (r: (
    Vec<String>,
    Option<String>,
))
    ensures
        match rewrites_of(f_info.file_info.content@, patterns_of(f_info.change_infos@), state.name@) {
            RewriteOutcome::Wrote(w) => texts(r.0@) == w && r.1 is None,
            RewriteOutcome::Failed(w, e) => texts(r.0@) == w && (r.1 matches Some(x) && x@ == e),
        },
{
    let original = f_info.file_info.content.as_str();
    let name = state.name.as_str();
    let ghost pats = patterns_of(f_info.change_infos@);
    let mut written: Vec<String> = Vec::new();
    let mut k: usize = 0;
    assert(pats.subrange(0, 0) =~= Seq::<Seq<char>>::empty());
    assert(texts(written@) =~= Seq::<Seq<char>>::empty());
    while k < f_info.change_infos.len()
        invariant
            k <= f_info.change_infos.len(),
            original@ == f_info.file_info.content@,
            name@ == state.name@,
            pats == patterns_of(f_info.change_infos@),
            rewrites_of(original@, pats.subrange(0, k as int), name@) == RewriteOutcome::Wrote(
                texts(written@),
            ),
        decreases f_info.change_infos.len() - k,
    {
        let ghost pre = pats.subrange(0, k + 1);
        assert(pre.drop_last() =~= pats.subrange(0, k as int));
        assert(pre.last() == f_info.change_infos@[k as int].search_pattern@);
        match compile(f_info.change_infos[k].search_pattern.as_str()) {
            Ok(re) => {
                let matches = all_matches(&re, original);
                let mut new_content = f_info.file_info.content.clone();
                let mut j: usize = 0;
                let ghost mv = texts(matches@);
                assert(mv.subrange(0, 0) =~= Seq::<Seq<char>>::empty());
                while j < matches.len()
                    invariant
                        j <= matches.len(),
                        mv == texts(matches@),
                        new_content@ == rename_matches(original@, mv.subrange(0, j as int), name@),
                    decreases matches.len() - j,
                {
                    assert(mv.subrange(0, j + 1).drop_last() =~= mv.subrange(0, j as int));
                    let renamed = replace_all(matches[j].as_str(), TEMPLATE_NAME, name);
                    new_content = replace_all(new_content.as_str(), matches[j].as_str(), renamed.as_str());
                    j = j + 1;
                }
                assert(mv.subrange(0, matches.len() as int) =~= mv);
                let ghost before = texts(written@);
                written.push(new_content);
                assert(texts(written@) =~= before.push(written@.last()@));
            },
            Err(e) => {
                proof {
                    lemma_rewrites_stay_failed(original@, pats, name@, k as int + 1);
                }
                return (written, Some(e));
            },
        }
        k = k + 1;
    }
    assert(pats.subrange(0, f_info.change_infos.len() as int) =~= pats);
    (written, None)
}

/// Once a prefix of the patterns fails, all of them fail the same way.
proof fn lemma_rewrites_stay_failed(
    original: Seq<char>,
    patterns: Seq<Seq<char>>,
    name: Seq<char>,
    k: int,
)
    requires
        0 <= k <= patterns.len(),
        rewrites_of(original, patterns.subrange(0, k), name) is Failed,
    ensures
        rewrites_of(original, patterns, name) == rewrites_of(original, patterns.subrange(0, k), name),
    decreases patterns.len() - k,
{
    if k < patterns.len() {
        let next = patterns.subrange(0, k + 1);
        assert(next.drop_last() =~= patterns.subrange(0, k));
        lemma_rewrites_stay_failed(original, patterns, name, k + 1);
    } else {
        assert(patterns.subrange(0, k) =~= patterns);
    }
}

/// Law: an entry whose name does not hold the template's name keeps its name.
pub proof fn law_entry_without_template_name_kept(entry_name: Seq<char>, new_name: Seq<char>)
    requires
        !occurs_in(entry_name, TEMPLATE_NAME@),
    ensures
        replaced(entry_name, TEMPLATE_NAME@, new_name) == entry_name,
{
    reveal_strlit("WebApiTemplate");
    lemma_replaced_absent(entry_name, TEMPLATE_NAME@, new_name);
}

/// Law: renaming to the template's own name changes no content, whatever
/// the matches.
pub proof fn law_rename_to_template_name_changes_nothing(content: Seq<char>, matches: Seq<Seq<char>>)
    ensures
        rename_matches(content, matches, TEMPLATE_NAME@) == content,
    decreases matches.len(),
{
    if matches.len() > 0 {
        law_rename_to_template_name_changes_nothing(content, matches.drop_last());
        let m = matches.last();
        lemma_replaced_same(m, TEMPLATE_NAME@);
        lemma_replaced_same(content, m);
    }
}

/// Law: a template file in which no pattern matches is written back as it
/// was, once per pattern.
pub proof fn law_unmatched_template_file_unchanged(original: Seq<char>, patterns: Seq<Seq<char>>, name: Seq<char>)
    requires
        forall|k: int|
            0 <= k < patterns.len() ==> regex_compile_error(#[trigger] patterns[k]) is None
                && regex_all_matches(patterns[k], original).len() == 0,
    ensures
        rewrites_of(original, patterns, name) == RewriteOutcome::Wrote(
            Seq::new(patterns.len(), |k: int| original),
        ),
    decreases patterns.len(),
{
    if patterns.len() > 0 {
        let prev = patterns.drop_last();
        assert forall|k: int| 0 <= k < prev.len() implies regex_compile_error(#[trigger] prev[k])
            is None && regex_all_matches(prev[k], original).len() == 0 by {
            assert(prev[k] == patterns[k]);
        }
        law_unmatched_template_file_unchanged(original, prev, name);
        let last = patterns.last();
        assert(last == patterns[patterns.len() - 1]);
        assert(regex_all_matches(last, original) =~= Seq::<Seq<char>>::empty());
        assert(Seq::new(prev.len(), |k: int| original).push(original) =~= Seq::new(
            patterns.len(),
            |k: int| original,
        ));
    } else {
        assert(Seq::new(0, |k: int| original) =~= Seq::<Seq<char>>::empty());
    }
}

} // verus!
