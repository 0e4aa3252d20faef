//! The command line: splitting an input line into words, finding flags and
//! their values, and choosing the command to run.
use vstd::prelude::*;
use crate::definitions::TemplateBuildResult;
use crate::text::{
    is_white_space, lemma_trimmed_edges, lemma_trimmed_keeps_absent, lemma_without_keeps_absent,
    lemma_without_removes, remove_char, same_text, split_at_char, split_on, to_upper, trim,
    trimmed, upper_case, without,
};

verus! {

/// The commands of the console.
#[derive(Debug, Clone, Copy, PartialEq, Eq)]
pub enum Actions {
    New,
    Add,
    Help,
}

/// The word a piece of the input line becomes: spaces and line ends removed,
/// then white space trimmed.
pub open spec fn token_text(piece: Seq<char>) -> Seq<char> {
    trimmed(without(without(piece, ' '), '\n'))
}

/// A piece is kept when something other than spaces is left of it.
pub open spec fn keeps_piece(piece: Seq<char>) -> bool {
    without(piece, ' ').len() > 0
}

/// The words made of the kept pieces, in order.
pub open spec fn tokens_of(pieces: Seq<Seq<char>>) -> Seq<Seq<char>>
    decreases pieces.len(),
{
    if pieces.len() == 0 {
        Seq::empty()
    } else if keeps_piece(pieces.last()) {
        tokens_of(pieces.drop_last()).push(token_text(pieces.last()))
    } else {
        tokens_of(pieces.drop_last())
    }
}

/// The words of an input line: the trimmed line split at each space, empty
/// pieces dropped.
pub open spec fn line_tokens(line: Seq<char>) -> Seq<Seq<char>> {
    tokens_of(split_on(trimmed(line), ' '))
}

/// The texts of a list of strings.
pub open spec fn texts(v: Seq<String>) -> Seq<Seq<char>> {
    v.map_values(|s: String| s@)
}

/// The form in which a command-line word is compared with a flag: upper case,
/// spaces removed.
pub open spec fn arg_key(word: Seq<char>) -> Seq<char> {
    without(upper_case(word), ' ')
}

/// The message for a flag given as the last word.
pub open spec fn missing_value_message(flag: Seq<char>) -> Seq<char> {
    "arg value for "@ + flag + " does not exist"@
}

/// What looking up a flag among the words gives.
pub enum ArgLookup {
    /// The flag, as written, and the word after it.
    Found(Seq<char>, Seq<char>),
    /// The flag is the last word; the error message.
    NoValue(Seq<char>),
    /// No word is the flag.
    Missing,
}

/// What the flag at `pos` gives: the word after it, or the message for a
/// missing value.
pub open spec fn value_at(args: Seq<Seq<char>>, pos: int) -> ArgLookup {
    if pos + 1 < args.len() {
        ArgLookup::Found(args[pos], args[pos + 1])
    } else {
        ArgLookup::NoValue(missing_value_message(args[pos]))
    }
}

/// Looks for the flag `key` (in upper case) among the words from position
/// `from` on; the first word whose `arg_key` is `key` is the flag.
pub open spec fn lookup_from(args: Seq<Seq<char>>, key: Seq<char>, from: int) -> ArgLookup
    decreases args.len() - from,
{
    if from < 0 || from >= args.len() {
        ArgLookup::Missing
    } else if arg_key(args[from]) == key {
        value_at(args, from)
    } else {
        lookup_from(args, key, from + 1)
    }
}

/// Looks for the flag named `name` among the words, comparing in upper case
/// with spaces removed.
pub open spec fn arg_lookup(args: Seq<Seq<char>>, name: Seq<char>) -> ArgLookup {
    lookup_from(args, upper_case(name), 0)
}

/// What the console gives back for a lookup: the flag and its value with the
/// words handed on, the message for a missing value, or the missing flag
/// named `name`.
pub open spec fn lookup_outcome(
    l: ArgLookup,
    name: Seq<char>,
    args: Seq<String>,
    r: TemplateBuildResult<crate::definitions::ArgInfo, Vec<String>, String>,
) -> bool {
    match l {
        ArgLookup::Found(flag, value) => {
            &&& r matches TemplateBuildResult::OkRes(info, rest)
            &&& info.name@ == flag
            &&& info.value@ == value
            &&& rest@ == args
        },
        ArgLookup::NoValue(m) => r matches TemplateBuildResult::GeneralError(e) && e@ == m,
        ArgLookup::Missing => r matches TemplateBuildResult::MissingArg(info) && info.arg_nqme@
            == name,
    }
}

/// The words of an input line.
pub fn split_console_line(line: &str) -> (r: Vec<String>)
    ensures
        texts(r@) == line_tokens(line@),
{
    let t = trim(line);
    let pieces = split_at_char(t.as_str(), ' ');
    let ghost pv = texts(pieces@);
    assert(pv == split_on(trimmed(line@), ' '));
    let mut out: Vec<String> = Vec::new();
    let mut k: usize = 0;
    while k < pieces.len()
        invariant
            k <= pieces.len(),
            pv == texts(pieces@),
            texts(out@) == tokens_of(pv.subrange(0, k as int)),
        decreases pieces.len() - k,
    {
        assert(pv.subrange(0, k + 1).drop_last() =~= pv.subrange(0, k as int));
        assert(pv.subrange(0, k + 1).last() == pieces@[k as int]@);
        let ghost before = texts(out@);
        let stripped = remove_char(pieces[k].as_str(), ' ');
        if stripped.as_str().unicode_len() > 0 {
            let no_line_end = remove_char(stripped.as_str(), '\n');
            let word = trim(no_line_end.as_str());
            out.push(word);
            assert(texts(out@) =~= before.push(word@));
        }
        k = k + 1;
    }
    assert(pv.subrange(0, pieces.len() as int) =~= pv);
    out
}

/// Looks up the value of the flag at `pos`: the flag and the word after it,
/// or an error when the flag is the last word.
pub fn check_if_arg_val_exists(pos: usize, args: Vec<String>) -> (r: TemplateBuildResult<
    crate::definitions::ArgInfo,
    Vec<String>,
    String,
>)
    requires
        pos < args.len(),
    ensures
        lookup_outcome(value_at(texts(args@), pos as int), Seq::empty(), args@, r),
{
    let arg_val_pos = pos + 1;
    let arg_len_min_one = args.len() - 1;
    if arg_len_min_one < arg_val_pos {
        let mut m = String::from_str("arg value for ");
        m.append(args[pos].as_str());
        m.append(" does not exist");
        TemplateBuildResult::GeneralError(m)
    } else {
        let info = crate::definitions::ArgInfo {
            name: args[pos].clone(),
            value: args[pos + 1].clone(),
        };
        TemplateBuildResult::OkRes(info, args)
    }
}

/// Looks for the flag `arg_name` among the words, comparing in upper case with
/// spaces removed; at the first match, looks up its value.
pub fn check_if_arg_exists(arg_name: String, args: Vec<String>) -> (r: TemplateBuildResult<
    crate::definitions::ArgInfo,
    Vec<String>,
    String,
>)
    ensures
        lookup_outcome(arg_lookup(texts(args@), arg_name@), arg_name@, args@, r),
{
    let key = to_upper(arg_name.as_str());
    let ghost words = texts(args@);
    let mut i: usize = 0;
    while i < args.len()
        invariant
            i <= args.len(),
            words == texts(args@),
            key@ == upper_case(arg_name@),
            lookup_from(words, key@, 0) == lookup_from(words, key@, i as int),
        decreases args.len() - i,
    {
        let word_key = remove_char(to_upper(args[i].as_str()).as_str(), ' ');
        assert(words[i as int] == args@[i as int]@);
        if same_text(word_key.as_str(), key.as_str()) {
            return check_if_arg_val_exists(i, args);
        }
        i = i + 1;
    }
    TemplateBuildResult::MissingArg(crate::definitions::MissingArgInfo { arg_nqme: arg_name })
}

/// The value of an optional flag, if the flag is there with a word after it.
pub open spec fn optional_value(args: Seq<Seq<char>>, name: Seq<char>) -> Option<Seq<char>> {
    match arg_lookup(args, name) {
        ArgLookup::Found(_, v) => Some(v),
        _ => None,
    }
}

/// The value of an optional flag, if the flag is there with a word after it.
pub fn get_optional_arg(arg_name: String, args: Vec<String>) -> (r: Option<String>)
    ensures
        match optional_value(texts(args@), arg_name@) {
            Some(v) => r matches Some(t) && t@ == v,
            None => r is None,
        },
{
    match check_if_arg_exists(arg_name, args) {
        TemplateBuildResult::OkRes(arg_val, _) => Some(arg_val.value),
        _ => None,
    }
}

/// The flags that `ADD` requires: controller, service and method, in that
/// order.
pub fn add_required_flags() -> (r: Vec<String>)
    ensures
        texts(r@) == seq!["-C"@, "-S"@, "-M"@],
{
    let mut r: Vec<String> = Vec::new();
    r.push(String::from_str("-C"));
    r.push(String::from_str("-S"));
    r.push(String::from_str("-M"));
    assert(texts(r@) =~= seq!["-C"@, "-S"@, "-M"@]);
    r
}

/// Takes the word at `arg_pos` as the command, handing all words on; the line
/// must hold at least one word.
pub fn check_if_init_arg_exists(arg_pos: usize, args: Vec<String>) -> (r: TemplateBuildResult<
    String,
    Vec<String>,
    String,
>)
    requires
        args.len() > 0,
    ensures
        arg_pos < args.len() ==> (r matches TemplateBuildResult::OkRes(first, rest) && first@
            == args@[arg_pos as int]@ && rest@ == args@),
        arg_pos >= args.len() ==> (r matches TemplateBuildResult::GeneralError(m) && m@
            == "No initial arg exists"@),
{
    if args.len() - 1 >= arg_pos {
        let first = args[arg_pos].clone();
        TemplateBuildResult::OkRes(first, args)
    } else {
        TemplateBuildResult::GeneralError(String::from_str("No initial arg exists"))
    }
}

/// The command a word names, compared in upper case: `NEW`, `ADD` and `-H`
/// name their actions (the words handed on), `EXIT` ends the console, any
/// other word is invalid.
pub open spec fn command_outcome(
    first_arg: Seq<char>,
    args: Seq<String>,
    r: TemplateBuildResult<Actions, Vec<String>, String>,
) -> bool {
    let up = upper_case(first_arg);
    if up == "NEW"@ {
        r matches TemplateBuildResult::OkRes(a, rest) && a == Actions::New && rest@ == args
    } else if up == "ADD"@ {
        r matches TemplateBuildResult::OkRes(a, rest) && a == Actions::Add && rest@ == args
    } else if up == "-H"@ {
        r matches TemplateBuildResult::OkRes(a, rest) && a == Actions::Help && rest@ == args
    } else if up == "EXIT"@ {
        r is Exit
    } else {
        r matches TemplateBuildResult::InvalidArg(w) && w@ == first_arg
    }
}

/// Chooses what the console does with a command word.
pub fn args_decide_action(first_arg: String, args: Vec<String>) -> (r: TemplateBuildResult<
    Actions,
    Vec<String>,
    String,
>)
    ensures
        command_outcome(first_arg@, args@, r),
{
    let up = to_upper(first_arg.as_str());
    proof {
        reveal_strlit("NEW");
        reveal_strlit("ADD");
        reveal_strlit("-H");
        reveal_strlit("EXIT");
        assert("NEW"@[0] != "ADD"@[0]);
        assert("NEW"@.len() != "-H"@.len());
        assert("NEW"@.len() != "EXIT"@.len());
        assert("ADD"@.len() != "-H"@.len());
        assert("ADD"@.len() != "EXIT"@.len());
        assert("-H"@.len() != "EXIT"@.len());
    }
    if up == String::from_str("NEW") {
        TemplateBuildResult::OkRes(Actions::New, args)
    } else if up == String::from_str("ADD") {
        TemplateBuildResult::OkRes(Actions::Add, args)
    } else if up == String::from_str("-H") {
        TemplateBuildResult::OkRes(Actions::Help, args)
    } else if up == String::from_str("EXIT") {
        TemplateBuildResult::Exit
    } else {
        TemplateBuildResult::InvalidArg(first_arg)
    }
}

/// Each word is free of spaces and neither starts nor ends with white space.
pub open spec fn clean_word(w: Seq<char>) -> bool {
    &&& forall|i: int| 0 <= i < w.len() ==> w[i] != ' '
    &&& w.len() > 0 ==> !is_white_space(w[0]) && !is_white_space(w.last())
}

/// The word of any piece is clean.
pub proof fn lemma_token_text_clean(p: Seq<char>)
    ensures
        clean_word(token_text(p)),
{
    let a = without(p, ' ');
    lemma_without_removes(p, ' ');
    let b = without(a, '\n');
    lemma_without_keeps_absent(a, '\n', ' ');
    lemma_trimmed_keeps_absent(b, ' ');
    lemma_trimmed_edges(b);
}

/// The words of kept pieces are clean.
pub proof fn lemma_tokens_clean(pieces: Seq<Seq<char>>)
    ensures
        forall|k: int| 0 <= k < tokens_of(pieces).len() ==> clean_word(#[trigger] tokens_of(pieces)[k]),
    decreases pieces.len(),
{
    if pieces.len() > 0 {
        lemma_tokens_clean(pieces.drop_last());
        lemma_token_text_clean(pieces.last());
        let prev = tokens_of(pieces.drop_last());
        if keeps_piece(pieces.last()) {
            assert forall|k: int| 0 <= k < tokens_of(pieces).len() implies clean_word(
                #[trigger] tokens_of(pieces)[k],
            ) by {
                if k < prev.len() {
                    assert(prev.push(token_text(pieces.last()))[k] == prev[k]);
                }
            }
        }
    }
}

/// Law: the words the console reads from a line hold no space and neither
/// start nor end with white space.
pub proof fn law_console_words_are_clean(line: Seq<char>)
    ensures
        forall|k: int|
            0 <= k < line_tokens(line).len() ==> clean_word(#[trigger] line_tokens(line)[k]),
{
    lemma_tokens_clean(split_on(trimmed(line), ' '));
}

/// Law: a flag is found whatever the case in which it is asked for: two
/// names with the same upper case give the same lookup, and the optional
/// value is the value of that lookup.
pub proof fn law_lookup_ignores_case(args: Seq<Seq<char>>, a: Seq<char>, b: Seq<char>)
    requires
        upper_case(a) == upper_case(b),
    ensures
        arg_lookup(args, a) == arg_lookup(args, b),
        optional_value(args, a) == optional_value(args, b),
        optional_value(args, a) is Some <==> arg_lookup(args, a) is Found,
{
}

/// Law: looking up a flag gives what its first occurrence gives: the value
/// after the first word that matches, whatever later words hold; and no
/// match means the flag is missing.
pub proof fn law_lookup_takes_first_occurrence(args: Seq<Seq<char>>, key: Seq<char>, i: int)
    requires
        0 <= i < args.len(),
        arg_key(args[i]) == key,
        forall|j: int| 0 <= j < i ==> arg_key(#[trigger] args[j]) != key,
    ensures
        lookup_from(args, key, 0) == value_at(args, i),
{
    lemma_lookup_skips(args, key, 0, i);
}

/// Law: a flag that no word matches is missing.
pub proof fn law_lookup_missing(args: Seq<Seq<char>>, key: Seq<char>)
    requires
        forall|j: int| 0 <= j < args.len() ==> arg_key(#[trigger] args[j]) != key,
    ensures
        lookup_from(args, key, 0) == ArgLookup::Missing,
{
    lemma_lookup_skips(args, key, 0, args.len() as int);
}

proof fn lemma_lookup_skips(args: Seq<Seq<char>>, key: Seq<char>, from: int, to: int)
    requires
        0 <= from <= to <= args.len(),
        forall|j: int| from <= j < to ==> arg_key(#[trigger] args[j]) != key,
    ensures
        lookup_from(args, key, from) == lookup_from(args, key, to),
    decreases to - from,
{
    if from < to {
        lemma_lookup_skips(args, key, from + 1, to);
    }
}

/// The command a result of `args_decide_action` carries out: an action, the
/// exit, or none (an invalid word).
pub open spec fn chosen_command(r: TemplateBuildResult<Actions, Vec<String>, String>) -> Option<
    Option<Actions>,
> {
    match r {
        TemplateBuildResult::OkRes(a, _) => Some(Some(a)),
        TemplateBuildResult::Exit => Some(None),
        _ => None,
    }
}

/// Law: the command chosen depends on the word's upper case alone, so the
/// word may be written in any case: two words with the same upper case choose
/// the same command (or are both invalid); `NEW`, `ADD` and `-h` in any case
/// run their action on the words, `EXIT` ends the console, and an invalid
/// word is reported as written.
pub proof fn law_command_ignores_case(
    w1: Seq<char>,
    w2: Seq<char>,
    args: Seq<String>,
    r1: TemplateBuildResult<Actions, Vec<String>, String>,
    r2: TemplateBuildResult<Actions, Vec<String>, String>,
)
    requires
        command_outcome(w1, args, r1),
        command_outcome(w2, args, r2),
    ensures
        upper_case(w1) == upper_case(w2) ==> chosen_command(r1) == chosen_command(r2),
        upper_case(w1) == "NEW"@ ==> (r1 matches TemplateBuildResult::OkRes(a, rest) && a
            == Actions::New && rest@ == args),
        upper_case(w1) == "ADD"@ ==> (r1 matches TemplateBuildResult::OkRes(a, rest) && a
            == Actions::Add && rest@ == args),
        upper_case(w1) == "-H"@ ==> (r1 matches TemplateBuildResult::OkRes(a, rest) && a
            == Actions::Help && rest@ == args),
        upper_case(w1) == "EXIT"@ ==> r1 is Exit,
        chosen_command(r1) is None ==> (r1 matches TemplateBuildResult::InvalidArg(w) && w@ == w1),
{
    reveal_strlit("NEW");
    reveal_strlit("ADD");
    reveal_strlit("-H");
    reveal_strlit("EXIT");
    assert("NEW"@[0] != "ADD"@[0]);
    assert("NEW"@.len() != "-H"@.len());
    assert("NEW"@.len() != "EXIT"@.len());
    assert("ADD"@.len() != "-H"@.len());
    assert("ADD"@.len() != "EXIT"@.len());
    assert("-H"@.len() != "EXIT"@.len());
}

} // verus!
