//! How a command line is read: options, each a flag with a value, then `--` and a
//! command.

use vstd::prelude::*;

use crate::cli::{lemma_flagged_is_a_flag, ArgModel, ValueKind};
use crate::decimal::decimal_value;

verus! {

/// The values of each argument that has any, as texts, under the argument's id.
pub type Values = Map<Seq<char>, Seq<Seq<char>>>;

/// An option of a command line: the position of the argument, and the value.
pub struct GivenOption {
    pub arg: int,
    pub value: Seq<char>,
}

/// A command line: the options that it starts with, and what follows them.
pub struct LineModel {
    pub options: Seq<GivenOption>,
    pub rest: Seq<Seq<char>>,
}

/// What a command line is answered with.
pub enum Answer {
    /// It gives each argument these values.
    Settings(Values),
    /// The help text, at length.
    LongHelp,
    /// The help text, in short.
    ShortHelp,
    /// The version.
    Version,
    /// An error.
    Refusal,
}

/// The words of a command line, without the program name that comes first.
pub open spec fn words_of(argv: Seq<Seq<char>>) -> Seq<Seq<char>> {
    if argv.len() == 0 {
        argv
    } else {
        argv.drop_first()
    }
}

/// What stands behind the first `--` of a list of words; nothing when there is no `--`.
pub open spec fn after_escape(words: Seq<Seq<char>>) -> Seq<Seq<char>>
    decreases words.len(),
{
    if words.len() == 0 {
        words
    } else if words[0] == "--"@ {
        words.drop_first()
    } else {
        after_escape(words.drop_first())
    }
}

/// The default of each argument that has one.
pub open spec fn default_values(args: Seq<ArgModel>) -> Values
    decreases args.len(),
{
    if args.len() == 0 {
        Map::empty()
    } else {
        let rest = default_values(args.drop_last());
        match args.last().default {
            Some(default) => rest.insert(args.last().id, seq![default]),
            None => rest,
        }
    }
}

/// The text is a flag of the argument: its long one behind two dashes, or its
/// one-letter one behind one.
pub open spec fn is_flag_of(text: Seq<char>, arg: ArgModel) -> bool {
    ||| arg.long is Some && text == "--"@ + arg.long->0
    ||| arg.short is Some && text == seq!['-', arg.short->0]
}

/// The position of the argument that the text is a flag of, if there is one.
pub open spec fn flagged(args: Seq<ArgModel>, text: Seq<char>) -> Option<int>
    decreases args.len(),
{
    if args.len() == 0 {
        None
    } else if is_flag_of(text, args.last()) {
        Some(args.len() - 1)
    } else {
        flagged(args.drop_last(), text)
    }
}

/// The text begins with a dash and has more to it, so that it is never the value of the
/// flag ahead of it.
pub open spec fn looks_like_flag(text: Seq<char>) -> bool {
    text.len() > 1 && text[0] == '-'
}

/// The text is a value of this kind. A number may have a sign; the sign of one that has
/// 64 bits may only be a plus.
pub open spec fn is_value_of(text: Seq<char>, kind: ValueKind) -> bool {
    match kind {
        ValueKind::Text => true,
        ValueKind::U16 => decimal_value(text) is Some && 0 <= decimal_value(text)->0 <= u16::MAX,
        ValueKind::U64 => {
            &&& decimal_value(text) is Some
            &&& 0 <= decimal_value(text)->0 <= u64::MAX
            &&& text[0] != '-'
        },
    }
}

/// The option that one word is: a one-letter flag with its value right behind it, or
/// behind an equals sign, or a long flag with its value behind an equals sign.
pub open spec fn attached(args: Seq<ArgModel>, word: Seq<char>) -> Option<GivenOption> {
    if word.len() > 2 && flagged(args, word.take(2)) is Some {
        Some(
            GivenOption {
                arg: flagged(args, word.take(2))->0,
                value: if word[2] == '=' {
                    word.skip(3)
                } else {
                    word.skip(2)
                },
            },
        )
    } else {
        match word.index_of_first('=') {
            Some(equals) => match flagged(args, word.take(equals)) {
                Some(arg) => Some(GivenOption { arg, value: word.skip(equals + 1) }),
                None => None,
            },
            None => None,
        }
    }
}

/// Reads options, each one word, or a flag and the word behind it, as long as there are
/// any.
pub open spec fn read_line(args: Seq<ArgModel>, words: Seq<Seq<char>>) -> LineModel
    decreases words.len(),
{
    if words.len() > 0 && attached(args, words[0]) is Some {
        let later = read_line(args, words.skip(1));
        LineModel { options: seq![attached(args, words[0])->0] + later.options, rest: later.rest }
    } else if words.len() > 1 && flagged(args, words[0]) is Some && !looks_like_flag(words[1]) {
        let option = GivenOption { arg: flagged(args, words[0])->0, value: words[1] };
        let later = read_line(args, words.skip(2));
        LineModel { options: seq![option] + later.options, rest: later.rest }
    } else {
        LineModel { options: Seq::empty(), rest: words }
    }
}

/// The values of the options are of the right kinds, and no argument is given twice.
pub open spec fn options_fit(args: Seq<ArgModel>, options: Seq<GivenOption>) -> bool {
    &&& forall|k: int|
        0 <= k < options.len() ==> is_value_of(
            (#[trigger] options[k]).value,
            args[options[k].arg].kind,
        )
    &&& forall|j: int, k: int|
        0 <= j < k < options.len() ==> (#[trigger] options[j]).arg != (#[trigger] options[k]).arg
}

/// The values of the arguments: the given ones, and the defaults of the others.
pub open spec fn option_values(args: Seq<ArgModel>, options: Seq<GivenOption>) -> Values
    decreases options.len(),
{
    if options.len() == 0 {
        default_values(args)
    } else {
        option_values(args, options.drop_last()).insert(
            args[options.last().arg].id,
            seq![options.last().value],
        )
    }
}

/// What a command line, program name first, is answered with.
///
/// A line of options that fit, `--` and a command gives settings. A request for the help
/// text or the version behind options that fit is answered with it, whatever follows.
/// Everything else is an error.
pub open spec fn answer_to(args: Seq<ArgModel>, argv: Seq<Seq<char>>) -> Answer {
    let line = read_line(args, words_of(argv));
    if !options_fit(args, line.options) || line.rest.len() == 0 {
        Answer::Refusal
    } else if line.rest[0] == "--"@ {
        if line.rest.len() > 1 {
            Answer::Settings(
                option_values(args, line.options).insert("command"@, line.rest.drop_first()),
            )
        } else {
            Answer::Refusal
        }
    } else if line.rest[0] == "--help"@ {
        Answer::LongHelp
    } else if "-h"@.is_prefix_of(line.rest[0]) {
        Answer::ShortHelp
    } else if line.rest[0] == "--version"@ || "-V"@.is_prefix_of(line.rest[0]) {
        Answer::Version
    } else {
        Answer::Refusal
    }
}

/// An argument that no option gives a value to has its default, or no value if it has
/// none.
pub proof fn law_option_not_given_has_its_default(
    args: Seq<ArgModel>,
    options: Seq<GivenOption>,
    id: Seq<char>,
)
    requires
        forall|k: int| 0 <= k < options.len() ==> args[(#[trigger] options[k]).arg].id != id,
    ensures
        option_values(args, options).contains_key(id) == default_values(args).contains_key(id),
        option_values(args, options)[id] == default_values(args)[id],
    decreases options.len(),
{
    if options.len() > 0 {
        assert(args[options[options.len() - 1].arg].id != id);
        law_option_not_given_has_its_default(args, options.drop_last(), id);
    }
}

/// An argument that one option gives a value to has that value, wherever the option
/// stands and whatever the other options are.
pub proof fn law_option_has_the_value_it_is_given(
    args: Seq<ArgModel>,
    options: Seq<GivenOption>,
    j: int,
)
    requires
        0 <= j < options.len(),
        forall|k: int|
            0 <= k < options.len() && k != j ==> args[(#[trigger] options[k]).arg].id
                != args[options[j].arg].id,
    ensures
        option_values(args, options).contains_key(args[options[j].arg].id),
        option_values(args, options)[args[options[j].arg].id] == seq![options[j].value],
    decreases options.len(),
{
    if j < options.len() - 1 {
        assert(args[options[options.len() - 1].arg].id != args[options[j].arg].id);
        law_option_has_the_value_it_is_given(args, options.drop_last(), j);
    }
}

/// A long flag takes its value behind an equals sign or as the next word alike, unless
/// that word looks like a flag itself.
pub proof fn law_spellings_agree(
    args: Seq<ArgModel>,
    flag: Seq<char>,
    value: Seq<char>,
    rest: Seq<Seq<char>>,
)
    requires
        flagged(args, flag) is Some,
        flag.len() > 2,
        flagged(args, flag.take(2)) is None,
        !flag.contains('='),
        !looks_like_flag(value),
    ensures
        read_line(args, seq![flag + seq!['='] + value] + rest) == read_line(
            args,
            seq![flag, value] + rest,
        ),
{
    let word = flag + seq!['='] + value;
    let one = seq![word] + rest;
    let two = seq![flag, value] + rest;
    assert(word.take(2) =~= flag.take(2));
    word.index_of_first_ensures('=');
    assert(word[flag.len() as int] == '=');
    assert(word.contains('='));
    let equals = word.index_of_first('=')->0;
    assert(equals == flag.len()) by {
        if equals < flag.len() {
            assert(flag[equals] == '=');
        }
    }
    assert(word.take(equals) =~= flag);
    assert(word.skip(equals + 1) =~= value);
    flag.index_of_first_ensures('=');
    assert(attached(args, flag) is None);
    assert(one.skip(1) =~= rest);
    assert(two.skip(2) =~= rest);
}

/// What is left behind the options and starts with `--` is the first `--` of the line and
/// what stands behind it.
pub proof fn lemma_rest_starts_at_the_first_escape(args: Seq<ArgModel>, words: Seq<Seq<char>>)
    requires
        flagged(args, "--"@) is None,
        read_line(args, words).rest.len() > 0,
        read_line(args, words).rest[0] == "--"@,
    ensures
        read_line(args, words).rest.drop_first() == after_escape(words),
    decreases words.len(),
{
    reveal_strlit("--");
    assert("--"@.len() == 2);
    if words.len() > 0 && attached(args, words[0]) is Some {
        "--"@.index_of_first_ensures('=');
        assert(words[0] != "--"@);
        assert(words.skip(1) =~= words.drop_first());
        lemma_rest_starts_at_the_first_escape(args, words.skip(1));
    } else if words.len() > 1 && flagged(args, words[0]) is Some && !looks_like_flag(words[1]) {
        let later = words.drop_first();
        assert(later[0] == words[1] && later[0] != "--"@);
        assert(after_escape(later) == after_escape(later.drop_first()));
        assert(words.skip(2) =~= words.drop_first().drop_first());
        lemma_rest_starts_at_the_first_escape(args, words.skip(2));
    }
}

/// A line that starts with `--` has no options.
pub proof fn lemma_escape_is_no_option(args: Seq<ArgModel>, words: Seq<Seq<char>>)
    requires
        flagged(args, "--"@) is None,
        words.len() > 0,
        words[0] == "--"@,
    ensures
        read_line(args, words).options.len() == 0,
        read_line(args, words).rest == words,
{
    reveal_strlit("--");
    assert("--"@.len() == 2);
    "--"@.index_of_first_ensures('=');
}

/// An argument that has values has at least one, and one with a default has values.
pub proof fn lemma_values_are_whole(args: Seq<ArgModel>, options: Seq<GivenOption>)
    ensures
        forall|id: Seq<char>| #[trigger]
            option_values(args, options).contains_key(id) ==> option_values(
                args,
                options,
            )[id].len() > 0,
        forall|id: Seq<char>| #[trigger]
            default_values(args).contains_key(id) ==> option_values(args, options).contains_key(id),
    decreases options.len(),
{
    if options.len() > 0 {
        let before = option_values(args, options.drop_last());
        lemma_values_are_whole(args, options.drop_last());
        assert forall|id: Seq<char>| #[trigger]
            option_values(args, options).contains_key(id) implies option_values(
            args,
            options,
        )[id].len() > 0 by {
            if id != args[options.last().arg].id {
                assert(before.contains_key(id));
            }
        }
    } else {
        lemma_defaults_are_whole(args);
    }
}

/// An argument with a default has one value by default.
proof fn lemma_defaults_are_whole(args: Seq<ArgModel>)
    ensures
        forall|id: Seq<char>| #[trigger]
            default_values(args).contains_key(id) ==> default_values(args)[id].len() > 0,
    decreases args.len(),
{
    if args.len() > 0 {
        let before = default_values(args.drop_last());
        lemma_defaults_are_whole(args.drop_last());
        assert forall|id: Seq<char>| #[trigger]
            default_values(args).contains_key(id) implies default_values(args)[id].len() > 0 by {
            if args.last().default is None || id != args.last().id {
                assert(before.contains_key(id));
            }
        }
    }
}

/// The words spell an option that gives this value to the argument at this position.
pub open spec fn is_spelling(
    args: Seq<ArgModel>,
    i: int,
    words: Seq<Seq<char>>,
    value: Seq<char>,
) -> bool {
    ||| {
        &&& words.len() == 2
        &&& flagged(args, words[0]) == Some(i)
        &&& attached(args, words[0]) is None
        &&& words[1] == value
        &&& !looks_like_flag(value)
    }
    ||| words.len() == 1 && attached(args, words[0]) == Some(GivenOption { arg: i, value })
}

/// The word starts an option for the argument at this position.
pub open spec fn mentions(args: Seq<ArgModel>, word: Seq<char>, i: int) -> bool {
    match attached(args, word) {
        Some(option) => option.arg == i,
        None => flagged(args, word) == Some(i),
    }
}

/// One of the options that the words start with gives a value to the argument at this
/// position.
pub open spec fn gives(args: Seq<ArgModel>, words: Seq<Seq<char>>, i: int) -> bool {
    exists|k: int|
        0 <= k < read_line(args, words).options.len() && (#[trigger] read_line(
            args,
            words,
        ).options[k]).arg == i
}

/// An option ahead of a line is read first, and the line behind it as it was.
pub proof fn lemma_option_is_read_first(
    args: Seq<ArgModel>,
    i: int,
    words: Seq<Seq<char>>,
    value: Seq<char>,
    rest: Seq<Seq<char>>,
)
    requires
        is_spelling(args, i, words, value),
    ensures
        read_line(args, words + rest).options == seq![GivenOption { arg: i, value }] + read_line(
            args,
            rest,
        ).options,
        read_line(args, words + rest).rest == read_line(args, rest).rest,
{
    let all = words + rest;
    assert(all[0] == words[0]);
    if words.len() == 1 {
        assert(all.skip(1) =~= rest);
    } else {
        assert(all[1] == words[1]);
        assert(all.skip(2) =~= rest);
    }
}

/// Every option that is read belongs to an argument.
pub proof fn lemma_options_belong_to_arguments(args: Seq<ArgModel>, words: Seq<Seq<char>>)
    ensures
        forall|k: int|
            0 <= k < read_line(args, words).options.len() ==> 0 <= (#[trigger] read_line(
                args,
                words,
            ).options[k]).arg < args.len(),
    decreases words.len(),
{
    let line = read_line(args, words);
    if words.len() > 0 && attached(args, words[0]) is Some {
        let later = read_line(args, words.skip(1)).options;
        lemma_options_belong_to_arguments(args, words.skip(1));
        if words[0].len() > 2 && flagged(args, words[0].take(2)) is Some {
            lemma_flagged_is_a_flag(args, words[0].take(2));
        } else {
            lemma_flagged_is_a_flag(args, words[0].take(words[0].index_of_first('=')->0));
        }
        assert forall|k: int| 0 <= k < line.options.len() implies 0 <= (
        #[trigger] line.options[k]).arg < args.len() by {
            if k > 0 {
                assert(line.options[k] == later[k - 1]);
            }
        }
    } else if words.len() > 1 && flagged(args, words[0]) is Some && !looks_like_flag(words[1]) {
        let later = read_line(args, words.skip(2)).options;
        lemma_options_belong_to_arguments(args, words.skip(2));
        lemma_flagged_is_a_flag(args, words[0]);
        assert forall|k: int| 0 <= k < line.options.len() implies 0 <= (
        #[trigger] line.options[k]).arg < args.len() by {
            if k > 0 {
                assert(line.options[k] == later[k - 1]);
            }
        }
    }
}

/// An option ahead of others fits if its value is of the right kind, the others fit, and
/// none of them is for its argument.
proof fn lemma_first_option_fits(args: Seq<ArgModel>, first: GivenOption, later: Seq<GivenOption>)
    ensures
        options_fit(args, seq![first] + later) <==> {
            &&& is_value_of(first.value, args[first.arg].kind)
            &&& options_fit(args, later)
            &&& forall|k: int| 0 <= k < later.len() ==> (#[trigger] later[k]).arg != first.arg
        },
{
    let all = seq![first] + later;
    assert(all[0] == first);
    assert forall|k: int| 0 <= k < later.len() implies #[trigger] later[k] == all[k + 1] by {}
    if options_fit(args, all) {
        assert forall|k: int| 0 <= k < later.len() implies is_value_of(
            (#[trigger] later[k]).value,
            args[later[k].arg].kind,
        ) && later[k].arg != first.arg by {
            assert(later[k] == all[k + 1]);
            assert(all[0].arg != all[k + 1].arg);
        }
        assert forall|j: int, k: int| 0 <= j < k < later.len() implies (#[trigger] later[j]).arg
            != (#[trigger] later[k]).arg by {
            assert(all[j + 1].arg != all[k + 1].arg);
        }
    }
    if is_value_of(first.value, args[first.arg].kind) && options_fit(args, later) && (forall|k: int|
        0 <= k < later.len() ==> (#[trigger] later[k]).arg != first.arg) {
        assert forall|k: int| 0 <= k < all.len() implies is_value_of(
            (#[trigger] all[k]).value,
            args[all[k].arg].kind,
        ) by {
            if k > 0 {
                assert(all[k] == later[k - 1]);
            }
        }
        assert forall|j: int, k: int| 0 <= j < k < all.len() implies (#[trigger] all[j]).arg != (
        #[trigger] all[k]).arg by {
            assert(all[k] == later[k - 1]);
            if j > 0 {
                assert(all[j] == later[j - 1]);
            }
        }
    }
}

/// An option ahead of others for other arguments adds its value to theirs.
proof fn lemma_first_option_adds_its_value(
    args: Seq<ArgModel>,
    first: GivenOption,
    later: Seq<GivenOption>,
)
    requires
        forall|k: int|
            0 <= k < later.len() ==> args[(#[trigger] later[k]).arg].id != args[first.arg].id,
    ensures
        option_values(args, seq![first] + later) == option_values(args, later).insert(
            args[first.arg].id,
            seq![first.value],
        ),
    decreases later.len(),
{
    let all = seq![first] + later;
    if later.len() == 0 {
        assert(all.drop_last() =~= Seq::empty());
        assert(later =~= Seq::empty());
        assert(option_values(args, all.drop_last()) == default_values(args));
    } else {
        assert(all.drop_last() =~= seq![first] + later.drop_last());
        assert(all.last() == later.last());
        assert(args[later[later.len() - 1].arg].id != args[first.arg].id);
        lemma_first_option_adds_its_value(args, first, later.drop_last());
        assert(option_values(args, all) =~= option_values(args, later).insert(
            args[first.arg].id,
            seq![first.value],
        ));
    }
}

/// What an option ahead of a line does to the answer, for arguments with different ids.
pub proof fn lemma_option_ahead_of_a_line(
    args: Seq<ArgModel>,
    program: Seq<char>,
    i: int,
    words: Seq<Seq<char>>,
    value: Seq<char>,
    rest: Seq<Seq<char>>,
)
    requires
        is_spelling(args, i, words, value),
        0 <= i < args.len(),
        args[i].id != "command"@,
        forall|j: int, k: int|
            0 <= j < args.len() && 0 <= k < args.len() && j != k ==> (#[trigger] args[j]).id != (
            #[trigger] args[k]).id,
    ensures
        ({
            let with = answer_to(args, seq![program] + words + rest);
            let without = answer_to(args, seq![program] + rest);
            if is_value_of(value, args[i].kind) && !gives(args, rest, i) {
                &&& without is Settings ==> with == Answer::Settings(
                    without->Settings_0.insert(args[i].id, seq![value]),
                )
                &&& !(without is Settings) ==> with == without
            } else {
                with is Refusal
            }
        }),
{
    let first = GivenOption { arg: i, value };
    let later = read_line(args, rest).options;
    assert(words_of(seq![program] + words + rest) =~= words + rest);
    assert(words_of(seq![program] + rest) =~= rest);
    lemma_option_is_read_first(args, i, words, value, rest);
    lemma_first_option_fits(args, first, later);
    lemma_options_belong_to_arguments(args, rest);
    if !gives(args, rest, i) {
        assert forall|k: int| 0 <= k < later.len() implies args[(#[trigger] later[k]).arg].id
            != args[i].id && later[k].arg != i by {
            assert(read_line(args, rest).options[k].arg != i);
        }
        lemma_first_option_adds_its_value(args, first, later);
        let values = option_values(args, later);
        let command = read_line(args, rest).rest.drop_first();
        assert(values.insert(args[i].id, seq![value]).insert("command"@, command)
            =~= values.insert("command"@, command).insert(args[i].id, seq![value]));
    } else {
        let k = choose|k: int|
            0 <= k < later.len() && (#[trigger] read_line(args, rest).options[k]).arg == i;
        assert(later[k].arg == i);
    }
}

/// A word that starts an option looks like a flag.
proof fn lemma_mention_looks_like_a_flag(args: Seq<ArgModel>, word: Seq<char>, i: int)
    requires
        mentions(args, word, i),
    ensures
        looks_like_flag(word),
{
    if attached(args, word) is None {
        lemma_flag_has_a_dash(args, word);
    } else if word.len() > 2 && flagged(args, word.take(2)) is Some {
        lemma_flag_has_a_dash(args, word.take(2));
        assert(word.take(2)[0] == word[0]);
    } else {
        let equals = word.index_of_first('=')->0;
        word.index_of_first_ensures('=');
        lemma_flag_has_a_dash(args, word.take(equals));
        assert(word.take(equals)[0] == word[0]);
    }
}

/// A flag is a dash with more to it.
proof fn lemma_flag_has_a_dash(args: Seq<ArgModel>, text: Seq<char>)
    requires
        flagged(args, text) is Some,
    ensures
        text.len() > 1,
        text[0] == '-',
{
    reveal_strlit("--");
    assert("--"@.len() == 2 && "--"@[0] == '-');
    lemma_flagged_is_a_flag(args, text);
}

/// An argument that a line gives a value to is mentioned ahead of the first `--`.
pub proof fn lemma_given_is_mentioned(
    args: Seq<ArgModel>,
    words: Seq<Seq<char>>,
    escape: int,
    i: int,
)
    requires
        flagged(args, "--"@) is None,
        0 <= escape <= words.len(),
        escape < words.len() ==> words[escape] == "--"@,
        gives(args, words, i),
    ensures
        exists|j: int| 0 <= j < escape && mentions(args, #[trigger] words[j], i),
    decreases words.len(),
{
    reveal_strlit("--");
    assert("--"@.len() == 2);
    "--"@.index_of_first_ensures('=');
    let options = read_line(args, words).options;
    let k = choose|k: int|
        0 <= k < options.len() && (#[trigger] read_line(args, words).options[k]).arg == i;
    let used: int = if attached(args, words[0]) is Some {
        1
    } else {
        2
    };
    assert(words.len() >= used && escape >= used) by {
        if escape < used && escape < words.len() {
            assert(words[escape] == "--"@);
        }
    }
    if k == 0 {
        assert(mentions(args, words[0], i));
    } else {
        let later = words.skip(used);
        assert(read_line(args, later).options[k - 1] == options[k]);
        lemma_given_is_mentioned(args, later, escape - used, i);
        let j = choose|j: int| 0 <= j < escape - used && mentions(args, #[trigger] later[j], i);
        assert(words[j + used] == later[j]);
    }
}

/// An argument that is mentioned ahead of the first `--` of a line that is read up to
/// there is given a value.
pub proof fn lemma_mentioned_is_given(
    args: Seq<ArgModel>,
    words: Seq<Seq<char>>,
    escape: int,
    i: int,
    j: int,
)
    requires
        flagged(args, "--"@) is None,
        0 <= j < escape <= words.len(),
        forall|n: int| 0 <= n < escape ==> #[trigger] words[n] != "--"@,
        read_line(args, words).rest.len() > 0,
        read_line(args, words).rest[0] == "--"@,
        mentions(args, words[j], i),
    ensures
        gives(args, words, i),
    decreases words.len(),
{
    let line = read_line(args, words);
    assert(words[0] != "--"@);
    let used: int = if attached(args, words[0]) is Some {
        1
    } else {
        2
    };
    assert(line.options.len() > 0);
    if j == 0 {
        assert(line.options[0].arg == i);
    } else {
        if j < used {
            lemma_mention_looks_like_a_flag(args, words[j], i);
        }
        let later = words.skip(used);
        assert(later[j - used] == words[j]);
        assert forall|n: int| 0 <= n < escape - used implies #[trigger] later[n] != "--"@ by {
            assert(later[n] == words[n + used]);
        }
        lemma_mentioned_is_given(args, later, escape - used, i, j - used);
        let options = read_line(args, later).options;
        let k = choose|k: int|
            0 <= k < options.len() && (#[trigger] read_line(args, later).options[k]).arg == i;
        assert(line.options[k + 1] == options[k]);
    }
}

} // verus!
