//! `ADD`: the model built from the command line, where each kind of file goes,
//! what is done about it, and how an existing file is changed.
use vstd::prelude::*;
use crate::definitions::{
    action_type_of, file_name_of, insert_text_of, new_content_of, rel_folder_of, ArgInfo,
    BaseAddModel, BasicFileInfo, ChangeFileInfo, ChangePatternInfo, FileActionType,
    NewContentFileType, NewFileInfo, SearchFileInFolderInfo, TemplateBuildResult,
};
use crate::misc::{arg_lookup, check_if_arg_exists, get_optional_arg, optional_value, texts, ArgLookup};
use crate::pattern::{compile, first_match, regex_compile_error, regex_first_match};
use crate::text::{
    contains, debug_quote, lemma_replaced_absent, debug_text, join_path, joined_path, occurs_in, replace_all, replaced, to_upper, upper_case,
};

verus! {

/// The flags found on the command line, each with its flag word and value,
/// in the order they were looked up.
pub struct ArgValues {
    pub entries: Vec<(String, ArgInfo)>,
}

/// The entries as texts: the name looked up, the flag as written, its value.
pub open spec fn entries_view(v: Seq<(String, ArgInfo)>) -> Seq<(Seq<char>, Seq<char>, Seq<char>)> {
    v.map_values(|e: (String, ArgInfo)| (e.0@, e.1.name@, e.1.value@))
}

/// The flag word and value recorded last under `key`, if any.
pub open spec fn entry_for(entries: Seq<(Seq<char>, Seq<char>, Seq<char>)>, key: Seq<char>) -> Option<
    (Seq<char>, Seq<char>),
>
    decreases entries.len(),
{
    if entries.len() == 0 {
        None
    } else if entries.last().0 == key {
        Some((entries.last().1, entries.last().2))
    } else {
        entry_for(entries.drop_last(), key)
    }
}

/// What looking up several flags gives: every flag with its value, or the
/// first flag that fails, with how it failed.
pub enum CollectedArgs {
    All(Seq<(Seq<char>, Seq<char>, Seq<char>)>),
    Stopped(ArgLookup, Seq<char>),
}

/// Looks up each name in turn, stopping at the first that is missing or has
/// no value.
pub open spec fn collected(names: Seq<Seq<char>>, args: Seq<Seq<char>>) -> CollectedArgs
    decreases names.len(),
{
    if names.len() == 0 {
        CollectedArgs::All(Seq::empty())
    } else {
        match collected(names.drop_last(), args) {
            CollectedArgs::Stopped(l, n) => CollectedArgs::Stopped(l, n),
            CollectedArgs::All(entries) => match arg_lookup(args, names.last()) {
                ArgLookup::Found(flag, value) => CollectedArgs::All(
                    entries.push((names.last(), flag, value)),
                ),
                other => CollectedArgs::Stopped(other, names.last()),
            },
        }
    }
}

/// Looks up each of the flags `arg_names` among the words `args`, in order:
/// all of them with their values, or the failure of the first that is
/// missing or has no value.
pub fn collect_args(arg_names: Vec<String>, args: Vec<String>) -> (r: TemplateBuildResult<
    ArgValues,
    Vec<String>,
    String,
>)
    ensures
        match collected(texts(arg_names@), texts(args@)) {
            CollectedArgs::All(entries) => r matches TemplateBuildResult::OkRes(vals, rest)
                && entries_view(vals.entries@) == entries && rest@ == args@,
            CollectedArgs::Stopped(ArgLookup::NoValue(m), _) => r matches TemplateBuildResult::GeneralError(
                e,
            ) && e@ == m,
            CollectedArgs::Stopped(ArgLookup::Missing, n) => r matches TemplateBuildResult::MissingArg(
                info,
            ) && info.arg_nqme@ == n,
            CollectedArgs::Stopped(ArgLookup::Found(_, _), _) => false,
        },
{
    let ghost names = texts(arg_names@);
    let ghost words = texts(args@);
    let mut entries: Vec<(String, ArgInfo)> = Vec::new();
    let mut k: usize = 0;
    assert(names.subrange(0, 0) =~= Seq::<Seq<char>>::empty());
    assert(entries_view(entries@) =~= Seq::<(Seq<char>, Seq<char>, Seq<char>)>::empty());
    while k < arg_names.len()
        invariant
            k <= arg_names.len(),
            names == texts(arg_names@),
            words == texts(args@),
            collected(names.subrange(0, k as int), words) == CollectedArgs::All(
                entries_view(entries@),
            ),
        decreases arg_names.len() - k,
    {
        let ghost prefix = names.subrange(0, k + 1);
        assert(prefix.drop_last() =~= names.subrange(0, k as int));
        assert(prefix.last() == arg_names@[k as int]@);
        let name = arg_names[k].clone();
        let args_copy = args.clone();
        assert(texts(args_copy@) =~= words);
        let res = check_if_arg_exists(name, args_copy);
        match res {
            TemplateBuildResult::OkRes(info, _) => {
                let ghost before = entries_view(entries@);
                entries.push((arg_names[k].clone(), info));
                assert(entries_view(entries@) =~= before.push(
                    (arg_names@[k as int]@, entries@.last().1.name@, entries@.last().1.value@),
                ));
            },
            TemplateBuildResult::GeneralError(e) => {
                assert(collected(names, words) == collected(prefix, words)) by {
                    lemma_collected_stops(names, words, k as int + 1);
                }
                return TemplateBuildResult::GeneralError(e);
            },
            TemplateBuildResult::MissingArg(m) => {
                assert(collected(names, words) == collected(prefix, words)) by {
                    lemma_collected_stops(names, words, k as int + 1);
                }
                return TemplateBuildResult::MissingArg(m);
            },
            _ => {
                assert(false);
                return TemplateBuildResult::Exit;
            },
        }
        k = k + 1;
    }
    assert(names.subrange(0, arg_names.len() as int) =~= names);
    TemplateBuildResult::OkRes(ArgValues { entries }, args)
}

/// Once a prefix of the names stops, the whole list stops the same way.
proof fn lemma_collected_stops(names: Seq<Seq<char>>, args: Seq<Seq<char>>, k: int)
    requires
        0 <= k <= names.len(),
        collected(names.subrange(0, k), args) is Stopped,
    ensures
        collected(names, args) == collected(names.subrange(0, k), args),
    decreases names.len() - k,
{
    if k < names.len() {
        let next = names.subrange(0, k + 1);
        assert(next.drop_last() =~= names.subrange(0, k));
        lemma_collected_stops(names, args, k + 1);
    } else {
        assert(names.subrange(0, k) =~= names);
    }
}

/// The flag word and value recorded last under `key`.
fn entry_for_exec(vals: &ArgValues, key: &str) -> (r: Option<ArgInfo>)
    ensures
        match entry_for(entries_view(vals.entries@), key@) {
            Some((flag, value)) => r matches Some(info) && info.name@ == flag && info.value@
                == value,
            None => r is None,
        },
{
    let ghost ev = entries_view(vals.entries@);
    let mut i: usize = vals.entries.len();
    assert(ev.subrange(0, i as int) =~= ev);
    while i > 0
        invariant
            i <= vals.entries.len(),
            ev == entries_view(vals.entries@),
            entry_for(ev, key@) == entry_for(ev.subrange(0, i as int), key@),
        decreases i,
    {
        let ghost pre = ev.subrange(0, i as int);
        assert(pre.drop_last() =~= ev.subrange(0, i - 1));
        if crate::text::same_text(vals.entries[i - 1].0.as_str(), key) {
            let info = ArgInfo {
                name: vals.entries[i - 1].1.name.clone(),
                value: vals.entries[i - 1].1.value.clone(),
            };
            return Some(info);
        }
        i = i - 1;
    }
    None
}

/// The message for a required flag that was not given.
pub open spec fn required_arg_message(flag: Seq<char>) -> Seq<char> {
    "expected value for arg '"@ + flag + "', found none."@
}

/// An `ArgInfo` with the given texts.
pub open spec fn arg_is(a: ArgInfo, name: Seq<char>, value: Seq<char>) -> bool {
    a.name@ == name && a.value@ == value
}

/// The model for `ADD`: the controller, service and method flags (`-C`, `-S`,
/// `-M`, looked up among `arg_vals`) are required, in that order; the request
/// type (`-rt`, default `GET`) and the method kind (`-t`, default `SP`) are
/// read from the words `args`.  The folder is left empty.
pub fn get_model(arg_vals: ArgValues, args: Vec<String>) -> (r: TemplateBuildResult<
    (),
    BaseAddModel,
    String,
>)
    ensures
        ({
            let ev = entries_view(arg_vals.entries@);
            let c = entry_for(ev, "-C"@);
            let s = entry_for(ev, "-S"@);
            let m = entry_for(ev, "-M"@);
            if c is None {
                r matches TemplateBuildResult::GeneralError(e) && e@ == required_arg_message(
                    "-c"@,
                )
            } else if s is None {
                r matches TemplateBuildResult::GeneralError(e) && e@ == required_arg_message(
                    "-s"@,
                )
            } else if m is None {
                r matches TemplateBuildResult::GeneralError(e) && e@ == required_arg_message(
                    "-m"@,
                )
            } else {
                &&& r matches TemplateBuildResult::OkRes(_, model)
                &&& arg_is(model.controller, c.unwrap().0, c.unwrap().1)
                &&& arg_is(model.service, s.unwrap().0, s.unwrap().1)
                &&& arg_is(model.method, m.unwrap().0, m.unwrap().1)
                &&& arg_is(
                    model.req_type,
                    "rt"@,
                    match optional_value(texts(args@), "-rt"@) {
                        Some(v) => v,
                        None => "GET"@,
                    },
                )
                &&& arg_is(
                    model.action_type,
                    "-t"@,
                    match optional_value(texts(args@), "-t"@) {
                        Some(v) => v,
                        None => "SP"@,
                    },
                )
                &&& model.dir_path@ == Seq::<char>::empty()
            }
        }),
{
    proof {
        reveal_strlit("expected value for arg '-c', found none.");
        reveal_strlit("expected value for arg '-s', found none.");
        reveal_strlit("expected value for arg '-m', found none.");
        reveal_strlit("expected value for arg '");
        reveal_strlit("', found none.");
        reveal_strlit("-c");
        reveal_strlit("-s");
        reveal_strlit("-m");
        assert(required_arg_message("-c"@) =~= "expected value for arg '-c', found none."@);
        assert(required_arg_message("-s"@) =~= "expected value for arg '-s', found none."@);
        assert(required_arg_message("-m"@) =~= "expected value for arg '-m', found none."@);
    }
    let controller = match entry_for_exec(&arg_vals, "-C") {
        Some(v) => v,
        None => {
            return TemplateBuildResult::GeneralError(
                String::from_str("expected value for arg '-c', found none."),
            );
        },
    };
    let service = match entry_for_exec(&arg_vals, "-S") {
        Some(v) => v,
        None => {
            return TemplateBuildResult::GeneralError(
                String::from_str("expected value for arg '-s', found none."),
            );
        },
    };
    let method = match entry_for_exec(&arg_vals, "-M") {
        Some(v) => v,
        None => {
            return TemplateBuildResult::GeneralError(
                String::from_str("expected value for arg '-m', found none."),
            );
        },
    };
    let args_copy = args.clone();
    assert(texts(args_copy@) =~= texts(args@));
    let req_type = match get_optional_arg(String::from_str("-rt"), args_copy) {
        Some(v) => ArgInfo { name: String::from_str("rt"), value: v },
        None => ArgInfo { name: String::from_str("rt"), value: String::from_str("GET") },
    };
    let args_copy = args.clone();
    assert(texts(args_copy@) =~= texts(args@));
    let action_type = match get_optional_arg(String::from_str("-t"), args_copy) {
        Some(v) => ArgInfo { name: String::from_str("-t"), value: v },
        None => ArgInfo { name: String::from_str("-t"), value: String::from_str("SP") },
    };
    let model = BaseAddModel {
        controller,
        service,
        method,
        req_type,
        action_type,
        dir_path: String::new(),
    };
    TemplateBuildResult::OkRes((), model)
}

fn copy_arg(a: &ArgInfo) -> (r: ArgInfo)
    ensures
        r == *a,
{
    ArgInfo { name: a.name.clone(), value: a.value.clone() }
}

fn copy_model(m: &BaseAddModel) -> (r: BaseAddModel)
    ensures
        r == *m,
{
    BaseAddModel {
        controller: copy_arg(&m.controller),
        service: copy_arg(&m.service),
        method: copy_arg(&m.method),
        req_type: copy_arg(&m.req_type),
        action_type: copy_arg(&m.action_type),
        dir_path: m.dir_path.clone(),
    }
}

fn copy_basic(b: &BasicFileInfo) -> (r: BasicFileInfo)
    ensures
        r == *b,
{
    BasicFileInfo { name: b.name.clone(), full_path: b.full_path.clone() }
}

/// What is done about the file of one kind: write a new file, ask before
/// overriding the existing one, ask before creating the missing one, or read
/// the existing one and apply the changes.
pub enum FileDecision {
    Create(NewFileInfo),
    AskOverride(BasicFileInfo, NewFileInfo),
    AskCreate(BasicFileInfo, NewFileInfo),
    Change(BasicFileInfo, Vec<ChangePatternInfo>),
}

/// The name of the file of kind `t` for the model.
pub open spec fn model_file_name(t: NewContentFileType, st: BaseAddModel) -> Seq<char> {
    file_name_of(t, st.controller.value@, st.service.value@, st.method.value@)
}

/// Where a new file of kind `t` is written: its folder under the model's
/// folder, then its name.
pub open spec fn model_file_path(t: NewContentFileType, st: BaseAddModel) -> Seq<char> {
    joined_path(
        joined_path(st.dir_path@, rel_folder_of(t, st.action_type.value@, st.method.value@)),
        model_file_name(t, st),
    )
}

/// The new file of kind `t` at `name` and `path`.
pub open spec fn new_file_is(n: NewFileInfo, t: NewContentFileType, name: Seq<char>, path: Seq<
    char,
>) -> bool {
    n.file_info.name@ == name && n.file_info.full_path@ == path && n.new_content@ == new_content_of(
        t,
    )
}

/// The decision table of `ADD` for one kind of file, given the file found
/// (if any).
pub open spec fn file_decision_is(
    found: Option<BasicFileInfo>,
    t: NewContentFileType,
    st: BaseAddModel,
    r: FileDecision,
) -> bool {
    let name = model_file_name(t, st);
    let path = model_file_path(t, st);
    match found {
        None => match action_type_of(t) {
            FileActionType::AskOnFileNotExists => r matches FileDecision::AskCreate(b, n)
                && b.name@ == name && b.full_path@ == path && n.file_info == b && n.new_content@
                == new_content_of(t),
            _ => r matches FileDecision::Create(n) && new_file_is(n, t, name, path),
        },
        Some(f) => match action_type_of(t) {
            FileActionType::AskOnFileExists => r matches FileDecision::AskOverride(b, n) && b
                == f && n.file_info == f && n.new_content@ == new_content_of(t),
            _ => r matches FileDecision::Change(b, infos) && b == f && infos@.len() == 1
                && infos@[0].search_pattern@ == Seq::<char>::empty() && infos@[0].str_to_replace@
                == insert_text_of(t),
        },
    }
}

/// Decides what is done about the file of the searched kind, given the file
/// found in its folder (if any).
pub fn decide_file_action(found_file_opt: Option<BasicFileInfo>, s_folder_info: SearchFileInFolderInfo) -> (r:
    FileDecision)
    ensures
        file_decision_is(found_file_opt, s_folder_info.file_type, s_folder_info.state, r),
{
    let t = s_folder_info.file_type;
    let st = s_folder_info.state;
    let file_action_type = t.get_file_action_type();
    let file_name = t.get_file_name(copy_model(&st));
    let rel_paths = t.get_rel_folder_path(copy_model(&st));
    let rel_path = rel_paths[0].clone();
    let new_content = t.get_new_file_content();
    match found_file_opt {
        None => {
            let folder = join_path(st.dir_path.as_str(), rel_path.as_str());
            let full_path = join_path(folder.as_str(), file_name.as_str());
            let basic = BasicFileInfo { name: file_name, full_path };
            match file_action_type {
                FileActionType::AskOnFileNotExists => {
                    let copy = copy_basic(&basic);
                    FileDecision::AskCreate(basic, NewFileInfo { file_info: copy, new_content })
                },
                _ => FileDecision::Create(NewFileInfo { file_info: basic, new_content }),
            }
        },
        Some(basic_file_info) => match file_action_type {
            FileActionType::AskOnFileExists => {
                let copy = copy_basic(&basic_file_info);
                FileDecision::AskOverride(
                    basic_file_info,
                    NewFileInfo { file_info: copy, new_content },
                )
            },
            _ => FileDecision::Change(basic_file_info, t.get_replace_pattern_infos(st)),
        },
    }
}

/// The changes of a file as pairs of texts: pattern, inserted text.
pub open spec fn change_pairs(infos: Seq<ChangePatternInfo>) -> Seq<(Seq<char>, Seq<char>)> {
    infos.map_values(|c: ChangePatternInfo| (c.search_pattern@, c.str_to_replace@))
}

/// What applying changes to a file's content gives: whether some pattern
/// matched and the new content, or the message of a pattern that does not
/// compile.
pub enum ChangeOutcome {
    Changed(bool, Seq<char>),
    Failed(Seq<char>),
}

/// Applies the changes in order.  Each pattern is searched for in the
/// original content; where it matches, every occurrence of the matched text
/// in the content so far is followed by the change's text.  A pattern that
/// does not compile stops everything.
pub open spec fn apply_changes(original: Seq<char>, changes: Seq<(Seq<char>, Seq<char>)>) -> ChangeOutcome
    decreases changes.len(),
{
    if changes.len() == 0 {
        ChangeOutcome::Changed(false, original)
    } else {
        match apply_changes(original, changes.drop_last()) {
            ChangeOutcome::Failed(e) => ChangeOutcome::Failed(e),
            ChangeOutcome::Changed(any, content) => {
                let (pat, text) = changes.last();
                match regex_compile_error(pat) {
                    Some(e) => ChangeOutcome::Failed(e),
                    None => match regex_first_match(pat, original) {
                        Some(m) => ChangeOutcome::Changed(true, replaced(content, m, m + text)),
                        None => ChangeOutcome::Changed(any, content),
                    },
                }
            },
        }
    }
}

/// The new content of an existing file after its changes: `Ok(Some(..))`
/// when some pattern matched (the file is then rewritten), `Ok(None)` when
/// none did (the file stays as it is), or the message of a pattern that does
/// not compile.
pub fn changed_content(f_info: &ChangeFileInfo) -> (r: Result<Option<String>, String>)
    ensures
        match apply_changes(f_info.file_info.content@, change_pairs(f_info.change_infos@)) {
            ChangeOutcome::Failed(e) => r matches Err(x) && x@ == e,
            ChangeOutcome::Changed(true, c) => r matches Ok(Some(x)) && x@ == c,
            ChangeOutcome::Changed(false, _) => r matches Ok(None),
        },
{
    let original = f_info.file_info.content.as_str();
    let ghost pairs = change_pairs(f_info.change_infos@);
    let mut any_match_found = false;
    let mut new_content = f_info.file_info.content.clone();
    let mut k: usize = 0;
    assert(pairs.subrange(0, 0) =~= Seq::<(Seq<char>, Seq<char>)>::empty());
    while k < f_info.change_infos.len()
        invariant
            k <= f_info.change_infos.len(),
            original@ == f_info.file_info.content@,
            pairs == change_pairs(f_info.change_infos@),
            apply_changes(original@, pairs.subrange(0, k as int)) == ChangeOutcome::Changed(
                any_match_found,
                new_content@,
            ),
        decreases f_info.change_infos.len() - k,
    {
        let ghost pre = pairs.subrange(0, k + 1);
        assert(pre.drop_last() =~= pairs.subrange(0, k as int));
        let info = &f_info.change_infos[k];
        assert(pre.last() == (info.search_pattern@, info.str_to_replace@));
        match compile(info.search_pattern.as_str()) {
            Ok(re) => match first_match(&re, original) {
                Some(found) => {
                    any_match_found = true;
                    let mut with_text = found.clone();
                    with_text.append(info.str_to_replace.as_str());
                    new_content = replace_all(new_content.as_str(), found.as_str(), with_text.as_str());
                },
                None => {},
            },
            Err(e) => {
                proof {
                    lemma_changes_stay_failed(original@, pairs, k as int + 1);
                }
                return Err(e);
            },
        }
        k = k + 1;
    }
    assert(pairs.subrange(0, f_info.change_infos.len() as int) =~= pairs);
    if any_match_found {
        Ok(Some(new_content))
    } else {
        Ok(None)
    }
}

/// Once a prefix of the changes fails, all of them fail the same way.
proof fn lemma_changes_stay_failed(original: Seq<char>, changes: Seq<(Seq<char>, Seq<char>)>, k: int)
    requires
        0 <= k <= changes.len(),
        apply_changes(original, changes.subrange(0, k)) is Failed,
    ensures
        apply_changes(original, changes) == apply_changes(original, changes.subrange(0, k)),
    decreases changes.len() - k,
{
    if k < changes.len() {
        let next = changes.subrange(0, k + 1);
        assert(next.drop_last() =~= changes.subrange(0, k));
        lemma_changes_stay_failed(original, changes, k + 1);
    } else {
        assert(changes.subrange(0, k) =~= changes);
    }
}

/// Whether a folder path names the relative folder looked for: the path with
/// `\` read as `/`, in upper case, holds the relative folder in upper case.
pub fn dir_matches_rel_path(curr_dir: &str, rel_path: &str) -> (r: bool)
    ensures
        r == occurs_in(upper_case(replaced(curr_dir@, "\\"@, "/"@)), upper_case(rel_path@)),
{
    let slashed = replace_all(curr_dir, "\\", "/");
    let dir_up = to_upper(slashed.as_str());
    let rel_up = to_upper(rel_path);
    contains(dir_up.as_str(), rel_up.as_str())
}

/// The folder created when none was found for a kind: its first relative
/// folder under the model's folder.
pub fn folder_to_create(s_folder_info: &SearchFileInFolderInfo, state: &BaseAddModel) -> (r: String)
    requires
        s_folder_info.rel_paths@.len() > 0,
    ensures
        r@ == joined_path(state.dir_path@, s_folder_info.rel_paths@[0]@),
{
    join_path(state.dir_path.as_str(), s_folder_info.rel_paths[0].as_str())
}

/// Where in the tool an error arose: file, line and function.
pub fn curr_pos_err_format(func_name: String, file_name: String, line: String) -> (r: String)
    ensures
        r@ == file_name@ + ":"@ + line@ + " in "@ + func_name@,
{
    let mut r = file_name;
    r.append(":");
    r.append(line.as_str());
    r.append(" in ");
    r.append(func_name.as_str());
    r
}

/// An error message followed by where it arose, written as `{:?}` writes a
/// text (quoted, with escapes).
pub fn located_error(err: String, pos: String) -> (r: String)
    ensures
        r@ == err@ + " - "@ + debug_text(pos@),
{
    let quoted = debug_quote(pos.as_str());
    let mut r = err;
    r.append(" - ");
    r.append(quoted.as_str());
    r
}

/// Where an error arose, then the error message.
pub fn traced_error(pos: String, err: String) -> (r: String)
    ensures
        r@ == pos@ + " -> "@ + err@,
{
    let mut r = pos;
    r.append(" -> ");
    r.append(err.as_str());
    r
}

/// Law: with `-C`, `-S` and `-M` each followed by a word, looking up the
/// three required flags of `ADD` records all three, and the model then reads
/// each one's flag word and value.
pub proof fn law_add_reads_required_flags(
    args: Seq<Seq<char>>,
    fc: Seq<char>,
    vc: Seq<char>,
    fs: Seq<char>,
    vs: Seq<char>,
    fm: Seq<char>,
    vm: Seq<char>,
)
    requires
        arg_lookup(args, "-C"@) == ArgLookup::Found(fc, vc),
        arg_lookup(args, "-S"@) == ArgLookup::Found(fs, vs),
        arg_lookup(args, "-M"@) == ArgLookup::Found(fm, vm),
    ensures
        ({
            let entries = seq![("-C"@, fc, vc), ("-S"@, fs, vs), ("-M"@, fm, vm)];
            &&& collected(seq!["-C"@, "-S"@, "-M"@], args) == CollectedArgs::All(entries)
            &&& entry_for(entries, "-C"@) == Some((fc, vc))
            &&& entry_for(entries, "-S"@) == Some((fs, vs))
            &&& entry_for(entries, "-M"@) == Some((fm, vm))
        }),
{
    reveal_strlit("-C");
    reveal_strlit("-S");
    reveal_strlit("-M");
    let names = seq!["-C"@, "-S"@, "-M"@];
    assert(names.drop_last() =~= seq!["-C"@, "-S"@]);
    assert(names.drop_last().drop_last() =~= seq!["-C"@]);
    assert(names.drop_last().drop_last().drop_last() =~= Seq::<Seq<char>>::empty());
    let entries = seq![("-C"@, fc, vc), ("-S"@, fs, vs), ("-M"@, fm, vm)];
    let e1 = Seq::<(Seq<char>, Seq<char>, Seq<char>)>::empty().push(("-C"@, fc, vc));
    let e2 = e1.push(("-S"@, fs, vs));
    let e3 = e2.push(("-M"@, fm, vm));
    assert(collected(names.drop_last().drop_last().drop_last(), args) == CollectedArgs::All(
        Seq::empty(),
    ));
    assert(names.drop_last().drop_last().last() == "-C"@);
    assert(collected(names.drop_last().drop_last(), args) == CollectedArgs::All(e1));
    assert(names.drop_last().last() == "-S"@);
    assert(collected(names.drop_last(), args) == CollectedArgs::All(e2));
    assert(names.last() == "-M"@);
    assert(collected(names, args) == CollectedArgs::All(e3));
    assert(entries =~= e3);
    assert("-C"@[1] != "-S"@[1] && "-C"@[1] != "-M"@[1] && "-S"@[1] != "-M"@[1]);
    assert("-C"@ != "-S"@ && "-C"@ != "-M"@ && "-S"@ != "-M"@);
    assert(e3.drop_last() =~= e2);
    assert(e2.drop_last() =~= e1);
    assert(entry_for(e3, "-M"@) == Some((fm, vm)));
    assert(entry_for(e2, "-S"@) == Some((fs, vs)));
    assert(entry_for(e3, "-S"@) == Some((fs, vs)));
    assert(entry_for(e1, "-C"@) == Some((fc, vc)));
    assert(entry_for(e2, "-C"@) == Some((fc, vc)));
    assert(entry_for(e3, "-C"@) == Some((fc, vc)));
}

/// Law: when every pattern compiles and none matches the original content,
/// applying the changes leaves the content as it is and reports no match, so
/// the file is not rewritten.
pub proof fn law_unmatched_changes_leave_file(original: Seq<char>, changes: Seq<(Seq<char>, Seq<char>)>)
    requires
        forall|k: int|
            0 <= k < changes.len() ==> regex_compile_error(#[trigger] changes[k].0) is None
                && regex_first_match(changes[k].0, original) is None,
    ensures
        apply_changes(original, changes) == ChangeOutcome::Changed(false, original),
    decreases changes.len(),
{
    if changes.len() > 0 {
        let prev = changes.drop_last();
        assert forall|k: int| 0 <= k < prev.len() implies regex_compile_error(
            #[trigger] prev[k].0,
        ) is None && regex_first_match(prev[k].0, original) is None by {
            assert(prev[k] == changes[k]);
        }
        law_unmatched_changes_leave_file(original, prev);
        assert(changes.last() == changes[changes.len() - 1]);
    }
}

/// Law: when every pattern compiles, the changes report a match (so the file
/// is rewritten) exactly when some pattern matches the original content, the
/// first, the last or any other.
pub proof fn law_rewrite_iff_some_pattern_matches(original: Seq<char>, changes: Seq<(Seq<char>, Seq<char>)>)
    requires
        forall|k: int| 0 <= k < changes.len() ==> regex_compile_error(#[trigger] changes[k].0) is None,
    ensures
        apply_changes(original, changes) matches ChangeOutcome::Changed(any, _) && (any
            <==> exists|k: int|
            0 <= k < changes.len() && regex_first_match(#[trigger] changes[k].0, original) is Some),
    decreases changes.len(),
{
    if changes.len() > 0 {
        let prev = changes.drop_last();
        let n = changes.len() - 1;
        assert forall|k: int| 0 <= k < prev.len() implies regex_compile_error(#[trigger] prev[k].0)
            is None by {
            assert(prev[k] == changes[k]);
        }
        law_rewrite_iff_some_pattern_matches(original, prev);
        assert(changes.last() == changes[n]);
        assert(regex_compile_error(changes[n].0) is None);
        if exists|k: int|
            0 <= k < changes.len() && regex_first_match(#[trigger] changes[k].0, original) is Some {
            let k = choose|k: int|
                0 <= k < changes.len() && regex_first_match(#[trigger] changes[k].0, original) is Some;
            if k < n {
                assert(prev[k] == changes[k]);
            }
        } else {
            assert forall|k: int| 0 <= k < prev.len() implies !(regex_first_match(
                #[trigger] prev[k].0,
                original,
            ) is Some) by {
                assert(prev[k] == changes[k]);
            }
        }
    }
}

/// Law: one more change works on the content the earlier changes produced.
/// Where its pattern matches the original content, every occurrence of the
/// matched text in that content is followed by the change's text, and a match
/// is reported; otherwise the content and the report stay as they were.
pub proof fn law_change_applies_to_content_so_far(
    original: Seq<char>,
    changes: Seq<(Seq<char>, Seq<char>)>,
    pattern: Seq<char>,
    text: Seq<char>,
)
    requires
        forall|k: int| 0 <= k < changes.len() ==> regex_compile_error(#[trigger] changes[k].0) is None,
        regex_compile_error(pattern) is None,
    ensures
        apply_changes(original, changes) matches ChangeOutcome::Changed(any, content) && match
            regex_first_match(pattern, original) {
            Some(m) => apply_changes(original, changes.push((pattern, text)))
                == ChangeOutcome::Changed(true, replaced(content, m, m + text)),
            None => apply_changes(original, changes.push((pattern, text)))
                == ChangeOutcome::Changed(any, content),
        },
{
    law_rewrite_iff_some_pattern_matches(original, changes);
    assert(changes.push((pattern, text)).drop_last() =~= changes);
}

/// Law: what earlier changes wrote is kept by a later change whose matched
/// text (not empty) does not occur in the content written so far.
pub proof fn law_later_change_keeps_earlier_text(
    original: Seq<char>,
    changes: Seq<(Seq<char>, Seq<char>)>,
    pattern: Seq<char>,
    text: Seq<char>,
)
    requires
        forall|k: int| 0 <= k < changes.len() ==> regex_compile_error(#[trigger] changes[k].0) is None,
        regex_compile_error(pattern) is None,
    ensures
        apply_changes(original, changes) matches ChangeOutcome::Changed(_, content) && ((
        regex_first_match(pattern, original) matches Some(m) && m.len() > 0 && !occurs_in(
            content,
            m,
        )) ==> apply_changes(original, changes.push((pattern, text))) == ChangeOutcome::Changed(
            true,
            content,
        )),
{
    law_change_applies_to_content_so_far(original, changes, pattern, text);
    if let ChangeOutcome::Changed(_, content) = apply_changes(original, changes) {
        if let Some(m) = regex_first_match(pattern, original) {
            if m.len() > 0 && !occurs_in(content, m) {
                lemma_replaced_absent(content, m, m + text);
            }
        }
    }
}

/// Law: an existing file is never written over without asking.  When a file
/// of the kind is found, the decision is the override question where the
/// kind asks before overriding, and otherwise changing the found file with
/// the kind's inserted text; it is never a plain write nor the create
/// question.
pub proof fn law_found_file_is_changed_or_asked(
    f: BasicFileInfo,
    t: NewContentFileType,
    st: BaseAddModel,
    r: FileDecision,
)
    requires
        file_decision_is(Some(f), t, st, r),
    ensures
        !(r is Create),
        !(r is AskCreate),
        action_type_of(t) == FileActionType::AskOnFileExists ==> (r matches FileDecision::AskOverride(
            b,
            n,
        ) && b == f && n.file_info == f),
        action_type_of(t) != FileActionType::AskOnFileExists ==> (r matches FileDecision::Change(
            b,
            infos,
        ) && b == f && infos@.len() == 1 && infos@[0].str_to_replace@ == insert_text_of(t)),
{
}

/// Law: a pattern that does not compile stops the changes with its error,
/// the first such pattern in the order of the changes; nothing is rewritten.
pub proof fn law_first_bad_pattern_fails(
    original: Seq<char>,
    changes: Seq<(Seq<char>, Seq<char>)>,
    k: int,
    e: Seq<char>,
)
    requires
        0 <= k < changes.len(),
        regex_compile_error(changes[k].0) == Some(e),
        forall|j: int| 0 <= j < k ==> regex_compile_error(#[trigger] changes[j].0) is None,
    ensures
        apply_changes(original, changes) == ChangeOutcome::Failed(e),
{
    let before = changes.subrange(0, k);
    assert forall|j: int| 0 <= j < before.len() implies regex_compile_error(#[trigger] before[j].0)
        is None by {
        assert(before[j] == changes[j]);
    }
    law_rewrite_iff_some_pattern_matches(original, before);
    let upto = changes.subrange(0, k + 1);
    assert(upto.drop_last() =~= before);
    assert(upto.last() == changes[k]);
    lemma_changes_stay_failed(original, changes, k + 1);
}

/// Law: a file of the kind that was not found is written new, with the
/// kind's content, at the kind's folder under the model's folder; the create
/// question comes first exactly where the kind asks before creating.
pub proof fn law_missing_file_is_created_in_its_folder(
    t: NewContentFileType,
    st: BaseAddModel,
    r: FileDecision,
)
    requires
        file_decision_is(None, t, st, r),
    ensures
        !(r is Change),
        !(r is AskOverride),
        r is AskCreate <==> action_type_of(t) == FileActionType::AskOnFileNotExists,
        match r {
            FileDecision::Create(n) => n.new_content@ == new_content_of(t) && n.file_info.name@
                == model_file_name(t, st) && n.file_info.full_path@ == joined_path(
                joined_path(st.dir_path@, rel_folder_of(t, st.action_type.value@, st.method.value@)),
                model_file_name(t, st),
            ),
            FileDecision::AskCreate(b, n) => n.file_info == b && n.new_content@ == new_content_of(t)
                && b.name@ == model_file_name(t, st) && b.full_path@ == joined_path(
                joined_path(st.dir_path@, rel_folder_of(t, st.action_type.value@, st.method.value@)),
                model_file_name(t, st),
            ),
            _ => true,
        },
{
}

} // verus!
