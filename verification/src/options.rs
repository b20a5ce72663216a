//! What each option of the program does to the settings, said of the words of the command
//! line.

use vstd::prelude::*;

use crate::cli::{
    lemma_default_port, lemma_escape_is_no_flag, lemma_flagged_is_a_flag, lemma_ids_differ,
    lemma_proxy_defaults, proxy_args, texts_of, ArgModel, Cli,
};
use crate::decimal::decimal_value;
use crate::line::{
    answer_to, attached, default_values, flagged, gives, is_flag_of, is_spelling, is_value_of,
    lemma_given_is_mentioned, lemma_mentioned_is_given, lemma_option_ahead_of_a_line,
    lemma_option_is_read_first, looks_like_flag, mentions, option_values, read_line, words_of,
};

verus! {

/// The long flag of the argument at a position.
spec fn long_flag(i: int) -> Seq<char> {
    if i == 0 {
        "--host"@
    } else if i == 1 {
        "--port"@
    } else if i == 2 {
        "--endpoint"@
    } else {
        "--session-keep-alive"@
    }
}

/// The letter of the one-letter flag of the argument at a position.
spec fn letter(i: int) -> Option<char> {
    if i == 0 {
        Some('H')
    } else if i == 1 {
        Some('p')
    } else if i == 2 {
        Some('e')
    } else {
        None
    }
}

/// The flags are those of the program's arguments, and no two of them are alike.
proof fn lemma_flag_texts(i: int)
    requires
        0 <= i < 4,
    ensures
        proxy_args().len() == 5,
        proxy_args()[i].long is Some,
        long_flag(i) == "--"@ + proxy_args()[i].long->0,
        proxy_args()[i].short == letter(i),
        proxy_args()[4].long is None,
        proxy_args()[4].short is None,
        long_flag(i).len() > 5,
        long_flag(i)[0] == '-',
        long_flag(i)[1] == '-',
        long_flag(i)[2] == (if i == 0 {
            'h'
        } else if i == 1 {
            'p'
        } else if i == 2 {
            'e'
        } else {
            's'
        }),
        long_flag(i)[3] == (if i == 0 || i == 1 {
            'o'
        } else if i == 2 {
            'n'
        } else {
            'e'
        }),
        !long_flag(i).contains('='),
{
    reveal_strlit("--");
    reveal_strlit("host");
    reveal_strlit("port");
    reveal_strlit("endpoint");
    reveal_strlit("session-keep-alive");
    reveal_strlit("--host");
    reveal_strlit("--port");
    reveal_strlit("--endpoint");
    reveal_strlit("--session-keep-alive");
    assert("--host"@ =~= "--"@ + "host"@);
    assert("--port"@ =~= "--"@ + "port"@);
    assert("--endpoint"@ =~= "--"@ + "endpoint"@);
    assert("--session-keep-alive"@ =~= "--"@ + "session-keep-alive"@);
}

/// Which texts are flags of which argument.
proof fn lemma_flagged_texts(text: Seq<char>)
    ensures
        forall|i: int|
            0 <= i < 4 ==> (#[trigger] flagged(proxy_args(), text) == Some(i) <==> (text
                == #[trigger] long_flag(i) || (letter(i) is Some && text == seq![
                '-',
                letter(i)->0,
            ]))),
        flagged(proxy_args(), text) is Some ==> 0 <= flagged(proxy_args(), text)->0 < 4,
{
    let args = proxy_args();
    lemma_flag_texts(0);
    lemma_flag_texts(1);
    lemma_flag_texts(2);
    lemma_flag_texts(3);
    if flagged(args, text) is Some {
        lemma_flagged_is_a_flag(args, text);
    }
    assert forall|i: int| 0 <= i < 4 implies (is_flag_of(text, args[i]) <==> (text == #[trigger]
    long_flag(i) || (letter(i) is Some && text == seq!['-', letter(i)->0]))) by {
        lemma_flag_texts(i);
    }
    assert forall|i: int, j: int|
        0 <= i < 4 && 0 <= j < 4 && is_flag_of(text, #[trigger] args[i]) && is_flag_of(
            text,
            #[trigger] args[j],
        ) implies i == j by {
        lemma_flag_texts(i);
        lemma_flag_texts(j);
        assert(long_flag(i) == long_flag(i) && long_flag(j) == long_flag(j));
    }
    lemma_first_flag(args, text);
    assert forall|i: int| 0 <= i < 4 implies (#[trigger] flagged(args, text) == Some(i) <==> (text
        == #[trigger] long_flag(i) || (letter(i) is Some && text == seq![
        '-',
        letter(i)->0,
    ]))) by {
        if is_flag_of(text, args[i]) {
            assert(flagged(args, text) is Some);
        }
    }
}

/// A text that is a flag of some argument is found to be one.
proof fn lemma_first_flag(args: Seq<ArgModel>, text: Seq<char>)
    ensures
        forall|i: int|
            0 <= i < args.len() && is_flag_of(text, #[trigger] args[i]) ==> flagged(
                args,
                text,
            ) is Some,
    decreases args.len(),
{
    if args.len() > 0 {
        lemma_first_flag(args.drop_last(), text);
        assert forall|i: int|
            0 <= i < args.len() && is_flag_of(text, #[trigger] args[i]) implies flagged(
            args,
            text,
        ) is Some by {
            if i < args.len() - 1 {
                assert(args.drop_last()[i] == args[i]);
            }
        }
    }
}

/// The words spell an option, with the flag as text and the letter alone: the value in the
/// next word, unless that looks like a flag, or behind an equals sign, or right behind the
/// letter.
spec fn spells(i: int, words: Seq<Seq<char>>, value: Seq<char>) -> bool {
    ||| words == seq![long_flag(i), value] && !looks_like_flag(value)
    ||| words == seq![long_flag(i) + seq!['='] + value]
    ||| letter(i) is Some && words == seq![seq!['-', letter(i)->0], value] && !looks_like_flag(
        value,
    )
    ||| letter(i) is Some && words == seq![seq!['-', letter(i)->0, '='] + value]
    ||| letter(i) is Some && words == seq![seq!['-', letter(i)->0] + value] && value.len() > 0
        && value[0] != '='
}

/// Such words are read as that option.
proof fn lemma_spelling_is_read(i: int, words: Seq<Seq<char>>, value: Seq<char>)
    requires
        0 <= i < 4,
        spells(i, words, value),
    ensures
        is_spelling(proxy_args(), i, words, value),
{
    let args = proxy_args();
    let word = words[0];
    lemma_flag_texts(i);
    lemma_flagged_texts(word);
    lemma_flagged_texts(word.take(2));
    assert(long_flag(i) == long_flag(i));
    word.index_of_first_ensures('=');
    if words == seq![long_flag(i), value] && !looks_like_flag(value) {
        assert(words[0] == long_flag(i) && words[1] == value);
        assert(word.take(2)[1] == '-');
        lemma_two_dashes_are_no_flag(word.take(2));
        assert(attached(args, word) is None);
    } else if words == seq![long_flag(i) + seq!['='] + value] {
        let flag = long_flag(i);
        assert(words[0] == flag + seq!['='] + value);
        assert(word.take(2)[1] == '-');
        lemma_two_dashes_are_no_flag(word.take(2));
        assert(word[flag.len() as int] == '=');
        let equals = word.index_of_first('=')->0;
        assert(equals == flag.len()) by {
            if equals < flag.len() {
                assert(flag[equals] == '=');
            }
        }
        assert(word.take(equals) =~= flag);
        assert(word.skip(equals + 1) =~= value);
        lemma_flagged_texts(flag);
    } else {
        let short = seq!['-', letter(i)->0];
        lemma_flagged_texts(short);
        assert(flagged(args, short) == Some(i));
        if words == seq![short, value] && !looks_like_flag(value) {
            assert(words[0] == short && words[1] == value);
            assert(attached(args, word) is None);
        } else if words == seq![seq!['-', letter(i)->0, '='] + value] {
            assert(words[0] == seq!['-', letter(i)->0, '='] + value);
            assert(word.take(2) =~= short);
            assert(word.skip(3) =~= value);
        } else {
            assert(words[0] == short + value);
            assert(word.take(2) =~= short);
            assert(word[2] == value[0]);
            assert(word.skip(2) =~= value);
        }
    }
}

/// Two dashes alone are no flag.
proof fn lemma_two_dashes_are_no_flag(text: Seq<char>)
    requires
        text.len() == 2,
        text[1] == '-',
    ensures
        flagged(proxy_args(), text) is None,
{
    lemma_flagged_texts(text);
    if flagged(proxy_args(), text) is Some {
        let i = flagged(proxy_args(), text)->0;
        lemma_flag_texts(i);
        assert(long_flag(i) == long_flag(i));
    }
}

/// The word is the long flag, with or without a value behind an equals sign, or begins
/// with the one-letter flag.
spec fn names(i: int, word: Seq<char>) -> bool {
    ||| word == long_flag(i)
    ||| (long_flag(i) + seq!['=']).is_prefix_of(word)
    ||| letter(i) is Some && seq!['-', letter(i)->0].is_prefix_of(word)
}

/// Which words start an option for which argument.
proof fn lemma_naming_is_mentioning(i: int, word: Seq<char>)
    requires
        0 <= i < 4,
    ensures
        names(i, word) <==> mentions(proxy_args(), word, i),
{
    let args = proxy_args();
    let flag = long_flag(i);
    lemma_flag_texts(i);
    lemma_flagged_texts(word);
    assert(long_flag(i) == long_flag(i));
    if names(i, word) {
        if word == flag {
            lemma_spelling_is_read(i, seq![flag, Seq::<char>::empty()], Seq::<char>::empty());
            assert(seq![flag, Seq::<char>::empty()][0] == flag);
            assert(seq![flag, Seq::<char>::empty()].len() == 2);
            assert(mentions(args, word, i));
        } else if (flag + seq!['=']).is_prefix_of(word) {
            let value = word.skip(flag.len() as int + 1);
            assert(word =~= flag + seq!['='] + value);
            lemma_spelling_is_read(i, seq![word], value);
            assert(seq![word].len() == 1 && seq![word][0] == word);
        } else {
            let short = seq!['-', letter(i)->0];
            assert(word.subrange(0, 2) =~= short);
            if word.len() == 2 {
                assert(word =~= short);
                let words = seq![short, Seq::<char>::empty()];
                lemma_spelling_is_read(i, words, Seq::<char>::empty());
                assert(words[0] == short && words.len() == 2);
            } else if word[2] == '=' {
                let value = word.skip(3);
                assert(word =~= seq!['-', letter(i)->0, '='] + value);
                lemma_spelling_is_read(i, seq![word], value);
                assert(seq![word].len() == 1 && seq![word][0] == word);
            } else {
                let value = word.skip(2);
                assert(word =~= short + value);
                lemma_spelling_is_read(i, seq![word], value);
                assert(seq![word].len() == 1 && seq![word][0] == word);
            }
        }
    }
    if mentions(args, word, i) {
        if attached(args, word) is None {
            if word != flag {
                assert(word =~= word.subrange(0, 2));
            }
        } else if word.len() > 2 && flagged(args, word.take(2)) is Some {
            lemma_flagged_texts(word.take(2));
            assert(word.take(2) =~= word.subrange(0, 2));
        } else {
            word.index_of_first_ensures('=');
            let equals = word.index_of_first('=')->0;
            lemma_flagged_texts(word.take(equals));
            if word.take(equals) == flag {
                assert(word.subrange(0, flag.len() as int + 1) =~= flag + seq!['=']);
            } else {
                assert(equals == 2);
                assert(word.take(equals) == word.take(2));
            }
        }
    }
}

/// What an option ahead of a line does to the answer, in terms of words.
proof fn lemma_option(
    program: Seq<char>,
    i: int,
    words: Seq<Seq<char>>,
    value: Seq<char>,
    rest: Seq<Seq<char>>,
    escape: int,
)
    requires
        0 <= i < 4,
        spells(i, words, value),
        0 <= escape <= rest.len(),
        escape < rest.len() ==> rest[escape] == "--"@,
        forall|j: int| 0 <= j < escape ==> #[trigger] rest[j] != "--"@,
    ensures
        ({
            let with = answer_to(proxy_args(), seq![program] + words + rest);
            let without = answer_to(proxy_args(), seq![program] + rest);
            let fits = is_value_of(value, proxy_args()[i].kind);
            let again = exists|j: int| 0 <= j < escape && names(i, #[trigger] rest[j]);
            &&& !fits ==> with is Refusal
            &&& again && without is Settings ==> with is Refusal
            &&& fits && !again && !(without is Settings) ==> with == without
            &&& fits && !again && without is Settings ==> with is Settings
            &&& with is Settings ==> {
                &&& fits
                &&& without is Settings
                &&& with->Settings_0 == without->Settings_0.insert(
                    proxy_args()[i].id,
                    seq![value],
                )
            }
        }),
{
    let args = proxy_args();
    lemma_ids_differ();
    lemma_escape_is_no_flag();
    lemma_flag_texts(i);
    lemma_spelling_is_read(i, words, value);
    assert forall|j: int, k: int|
        0 <= j < args.len() && 0 <= k < args.len() && j != k implies (#[trigger] args[j]).id != (
    #[trigger] args[k]).id by {
        assert(j == 0 || j == 1 || j == 2 || j == 3 || j == 4);
        assert(k == 0 || k == 1 || k == 2 || k == 3 || k == 4);
    }
    assert(args[i].id != args[4].id);
    lemma_option_ahead_of_a_line(args, program, i, words, value, rest);
    assert(words_of(seq![program] + rest) =~= rest);
    if gives(args, rest, i) {
        lemma_given_is_mentioned(args, rest, escape, i);
        let j = choose|j: int| 0 <= j < escape && mentions(args, #[trigger] rest[j], i);
        lemma_naming_is_mentioning(i, rest[j]);
        assert(names(i, rest[j]));
    }
    if (exists|j: int| 0 <= j < escape && names(i, #[trigger] rest[j])) && answer_to(
        args,
        seq![program] + rest,
    ) is Settings {
        let j = choose|j: int| 0 <= j < escape && names(i, #[trigger] rest[j]);
        lemma_naming_is_mentioning(i, rest[j]);
        lemma_mentioned_is_given(args, rest, escape, i, j);
    }
}

/// Settings whose commands have the same texts have the same commands, word by word.
proof fn lemma_same_command(cli: Cli, base: Cli)
    requires
        texts_of(cli.command@) == texts_of(base.command@),
    ensures
        cli.command@.len() == base.command@.len(),
        forall|n: int|
            0 <= n < cli.command@.len() ==> (#[trigger] cli.command@[n])@ == base.command@[n]@,
{
    assert(texts_of(cli.command@).len() == cli.command@.len());
    assert(texts_of(base.command@).len() == base.command@.len());
    assert forall|n: int| 0 <= n < cli.command@.len() implies (#[trigger] cli.command@[n])@
        == base.command@[n]@ by {
        assert(texts_of(cli.command@)[n] == cli.command@[n]@);
        assert(texts_of(base.command@)[n] == base.command@[n]@);
    }
}

/// The host is exactly the text that the option gives it, whatever the
/// rest of the line is. The option may be spelled `--host v`, `--host=v`, `-H v`, `-H=v` or `-Hv`.
/// Ahead of a line that gives settings and does not have the option, it changes this
/// setting and no other; ahead of one that has it, or with a value that does not fit, it
/// makes the line an error; and it does not change what else a line is answered with.
pub proof fn law_host_option(
    program: Seq<char>,
    words: Seq<Seq<char>>,
    value: Seq<char>,
    rest: Seq<Seq<char>>,
    escape: int,
    cli: Cli,
    base: Cli,
)
    requires
        ({
            ||| words == seq!["--host"@, value] && !(value.len() > 1 && value[0] == '-')
            ||| words == seq!["--host="@ + value]
            ||| words == seq!["-H"@, value] && !(value.len() > 1 && value[0] == '-')
            ||| words == seq!["-H="@ + value]
            ||| words == seq!["-H"@ + value] && value.len() > 0 && value[0] != '='
        }),
        0 <= escape <= rest.len(),
        escape < rest.len() ==> rest[escape] == "--"@,
        forall|j: int| 0 <= j < escape ==> #[trigger] rest[j] != "--"@,
    ensures
        ({
            let with = answer_to(proxy_args(), seq![program] + words + rest);
            let without = answer_to(proxy_args(), seq![program] + rest);
            let fits = true;
            let again = exists|j: int|
                0 <= j < escape && (#[trigger] rest[j] == "--host"@ || "--host="@.is_prefix_of(rest[j]) || "-H"@.is_prefix_of(
                rest[j],
            ));
            &&& !fits ==> with is Refusal
            &&& again && without is Settings ==> with is Refusal
            &&& fits && !again && !(without is Settings) ==> with == without
            &&& fits && !again && without is Settings ==> with is Settings
            &&& with is Settings ==> without is Settings && with->Settings_0
                == without->Settings_0.insert("host"@, seq![value])
            &&& with is Settings && cli.spelled_by(with->Settings_0) ==> cli.host@ == value
            &&& with is Settings && cli.spelled_by(with->Settings_0) && base.spelled_by(
                without->Settings_0,
            ) ==> {
                &&& cli.port == base.port
                &&& cli.endpoint@ == base.endpoint@
                &&& cli.session_keep_alive == base.session_keep_alive
                &&& cli.command@.len() == base.command@.len()
                &&& forall|n: int|
                    0 <= n < cli.command@.len() ==> (#[trigger] cli.command@[n])@
                        == base.command@[n]@
            }
        }),
{
    reveal_strlit("--host");
    reveal_strlit("--host=");
    reveal_strlit("-H");
    reveal_strlit("-H=");
    assert("--host="@ =~= "--host"@ + seq!['=']);
    assert("--host="@ + value =~= "--host"@ + seq!['='] + value);
    assert("-H"@ =~= seq!['-', 'H']);
    assert("-H="@ =~= seq!['-', 'H', '=']);
    assert(spells(0, words, value));
    assert forall|j: int| 0 <= j < escape implies (names(0, #[trigger] rest[j]) <==> (
    rest[j] == "--host"@ || "--host="@.is_prefix_of(rest[j]) || "-H"@.is_prefix_of(
                rest[j],
            ))) by {}
    lemma_ids_differ();
    lemma_option(program, 0, words, value, rest, escape);
    let with = answer_to(proxy_args(), seq![program] + words + rest);
    let without = answer_to(proxy_args(), seq![program] + rest);
    if with is Settings && cli.spelled_by(with->Settings_0) && base.spelled_by(
        without->Settings_0,
    ) {
        lemma_same_command(cli, base);
    }
}

/// The port is exactly the number that the option's text denotes, whatever the
/// rest of the line is. The option may be spelled `--port v`, `--port=v`, `-p v`, `-p=v` or `-pv`.
/// Ahead of a line that gives settings and does not have the option, it changes this
/// setting and no other; ahead of one that has it, or with a value that does not fit, it
/// makes the line an error; and it does not change what else a line is answered with.
pub proof fn law_port_option(
    program: Seq<char>,
    words: Seq<Seq<char>>,
    value: Seq<char>,
    rest: Seq<Seq<char>>,
    escape: int,
    cli: Cli,
    base: Cli,
)
    requires
        ({
            ||| words == seq!["--port"@, value] && !(value.len() > 1 && value[0] == '-')
            ||| words == seq!["--port="@ + value]
            ||| words == seq!["-p"@, value] && !(value.len() > 1 && value[0] == '-')
            ||| words == seq!["-p="@ + value]
            ||| words == seq!["-p"@ + value] && value.len() > 0 && value[0] != '='
        }),
        0 <= escape <= rest.len(),
        escape < rest.len() ==> rest[escape] == "--"@,
        forall|j: int| 0 <= j < escape ==> #[trigger] rest[j] != "--"@,
    ensures
        ({
            let with = answer_to(proxy_args(), seq![program] + words + rest);
            let without = answer_to(proxy_args(), seq![program] + rest);
            let fits = decimal_value(value) is Some && 0 <= decimal_value(value)->0 <= 65535;
            let again = exists|j: int|
                0 <= j < escape && (#[trigger] rest[j] == "--port"@ || "--port="@.is_prefix_of(rest[j]) || "-p"@.is_prefix_of(
                rest[j],
            ));
            &&& !fits ==> with is Refusal
            &&& again && without is Settings ==> with is Refusal
            &&& fits && !again && !(without is Settings) ==> with == without
            &&& fits && !again && without is Settings ==> with is Settings
            &&& with is Settings ==> without is Settings && with->Settings_0
                == without->Settings_0.insert("port"@, seq![value])
            &&& with is Settings && cli.spelled_by(with->Settings_0) ==> decimal_value(value) == Some(cli.port as int)
            &&& with is Settings && cli.spelled_by(with->Settings_0) && base.spelled_by(
                without->Settings_0,
            ) ==> {
                &&& cli.host@ == base.host@
                &&& cli.endpoint@ == base.endpoint@
                &&& cli.session_keep_alive == base.session_keep_alive
                &&& cli.command@.len() == base.command@.len()
                &&& forall|n: int|
                    0 <= n < cli.command@.len() ==> (#[trigger] cli.command@[n])@
                        == base.command@[n]@
            }
        }),
{
    reveal_strlit("--port");
    reveal_strlit("--port=");
    reveal_strlit("-p");
    reveal_strlit("-p=");
    assert("--port="@ =~= "--port"@ + seq!['=']);
    assert("--port="@ + value =~= "--port"@ + seq!['='] + value);
    assert("-p"@ =~= seq!['-', 'p']);
    assert("-p="@ =~= seq!['-', 'p', '=']);
    assert(spells(1, words, value));
    assert forall|j: int| 0 <= j < escape implies (names(1, #[trigger] rest[j]) <==> (
    rest[j] == "--port"@ || "--port="@.is_prefix_of(rest[j]) || "-p"@.is_prefix_of(
                rest[j],
            ))) by {}
    lemma_ids_differ();
    lemma_option(program, 1, words, value, rest, escape);
    let with = answer_to(proxy_args(), seq![program] + words + rest);
    let without = answer_to(proxy_args(), seq![program] + rest);
    if with is Settings && cli.spelled_by(with->Settings_0) && base.spelled_by(
        without->Settings_0,
    ) {
        lemma_same_command(cli, base);
    }
}

/// The endpoint is exactly the text that the option gives it, whatever the
/// rest of the line is. The option may be spelled `--endpoint v`, `--endpoint=v`, `-e v`, `-e=v` or `-ev`.
/// Ahead of a line that gives settings and does not have the option, it changes this
/// setting and no other; ahead of one that has it, or with a value that does not fit, it
/// makes the line an error; and it does not change what else a line is answered with.
pub proof fn law_endpoint_option(
    program: Seq<char>,
    words: Seq<Seq<char>>,
    value: Seq<char>,
    rest: Seq<Seq<char>>,
    escape: int,
    cli: Cli,
    base: Cli,
)
    requires
        ({
            ||| words == seq!["--endpoint"@, value] && !(value.len() > 1 && value[0] == '-')
            ||| words == seq!["--endpoint="@ + value]
            ||| words == seq!["-e"@, value] && !(value.len() > 1 && value[0] == '-')
            ||| words == seq!["-e="@ + value]
            ||| words == seq!["-e"@ + value] && value.len() > 0 && value[0] != '='
        }),
        0 <= escape <= rest.len(),
        escape < rest.len() ==> rest[escape] == "--"@,
        forall|j: int| 0 <= j < escape ==> #[trigger] rest[j] != "--"@,
    ensures
        ({
            let with = answer_to(proxy_args(), seq![program] + words + rest);
            let without = answer_to(proxy_args(), seq![program] + rest);
            let fits = true;
            let again = exists|j: int|
                0 <= j < escape && (#[trigger] rest[j] == "--endpoint"@ || "--endpoint="@.is_prefix_of(rest[j]) || "-e"@.is_prefix_of(
                rest[j],
            ));
            &&& !fits ==> with is Refusal
            &&& again && without is Settings ==> with is Refusal
            &&& fits && !again && !(without is Settings) ==> with == without
            &&& fits && !again && without is Settings ==> with is Settings
            &&& with is Settings ==> without is Settings && with->Settings_0
                == without->Settings_0.insert("endpoint"@, seq![value])
            &&& with is Settings && cli.spelled_by(with->Settings_0) ==> cli.endpoint@ == value
            &&& with is Settings && cli.spelled_by(with->Settings_0) && base.spelled_by(
                without->Settings_0,
            ) ==> {
                &&& cli.host@ == base.host@
                &&& cli.port == base.port
                &&& cli.session_keep_alive == base.session_keep_alive
                &&& cli.command@.len() == base.command@.len()
                &&& forall|n: int|
                    0 <= n < cli.command@.len() ==> (#[trigger] cli.command@[n])@
                        == base.command@[n]@
            }
        }),
{
    reveal_strlit("--endpoint");
    reveal_strlit("--endpoint=");
    reveal_strlit("-e");
    reveal_strlit("-e=");
    assert("--endpoint="@ =~= "--endpoint"@ + seq!['=']);
    assert("--endpoint="@ + value =~= "--endpoint"@ + seq!['='] + value);
    assert("-e"@ =~= seq!['-', 'e']);
    assert("-e="@ =~= seq!['-', 'e', '=']);
    assert(spells(2, words, value));
    assert forall|j: int| 0 <= j < escape implies (names(2, #[trigger] rest[j]) <==> (
    rest[j] == "--endpoint"@ || "--endpoint="@.is_prefix_of(rest[j]) || "-e"@.is_prefix_of(
                rest[j],
            ))) by {}
    lemma_ids_differ();
    lemma_option(program, 2, words, value, rest, escape);
    let with = answer_to(proxy_args(), seq![program] + words + rest);
    let without = answer_to(proxy_args(), seq![program] + rest);
    if with is Settings && cli.spelled_by(with->Settings_0) && base.spelled_by(
        without->Settings_0,
    ) {
        lemma_same_command(cli, base);
    }
}

/// The keep-alive is exactly the number that the option's text denotes, whatever the
/// rest of the line is. The option may be spelled `--session-keep-alive v`, `--session-keep-alive=v`.
/// Ahead of a line that gives settings and does not have the option, it changes this
/// setting and no other; ahead of one that has it, or with a value that does not fit, it
/// makes the line an error; and it does not change what else a line is answered with.
pub proof fn law_session_keep_alive_option(
    program: Seq<char>,
    words: Seq<Seq<char>>,
    value: Seq<char>,
    rest: Seq<Seq<char>>,
    escape: int,
    cli: Cli,
    base: Cli,
)
    requires
        ({
            ||| words == seq!["--session-keep-alive"@, value] && !(value.len() > 1 && value[0] == '-')
            ||| words == seq!["--session-keep-alive="@ + value]
        }),
        0 <= escape <= rest.len(),
        escape < rest.len() ==> rest[escape] == "--"@,
        forall|j: int| 0 <= j < escape ==> #[trigger] rest[j] != "--"@,
    ensures
        ({
            let with = answer_to(proxy_args(), seq![program] + words + rest);
            let without = answer_to(proxy_args(), seq![program] + rest);
            let fits = decimal_value(value) is Some && 0 <= decimal_value(value)->0 <= 18446744073709551615
                && value[0] != '-';
            let again = exists|j: int|
                0 <= j < escape && (#[trigger] rest[j] == "--session-keep-alive"@ || "--session-keep-alive="@.is_prefix_of(rest[j]));
            &&& !fits ==> with is Refusal
            &&& again && without is Settings ==> with is Refusal
            &&& fits && !again && !(without is Settings) ==> with == without
            &&& fits && !again && without is Settings ==> with is Settings
            &&& with is Settings ==> without is Settings && with->Settings_0
                == without->Settings_0.insert("session_keep_alive"@, seq![value])
            &&& with is Settings && cli.spelled_by(with->Settings_0) ==> cli.session_keep_alive is Some && decimal_value(value) == Some(
                    cli.session_keep_alive->0 as int,
                )
            &&& with is Settings && cli.spelled_by(with->Settings_0) && base.spelled_by(
                without->Settings_0,
            ) ==> {
                &&& cli.host@ == base.host@
                &&& cli.port == base.port
                &&& cli.endpoint@ == base.endpoint@
                &&& cli.command@.len() == base.command@.len()
                &&& forall|n: int|
                    0 <= n < cli.command@.len() ==> (#[trigger] cli.command@[n])@
                        == base.command@[n]@
            }
        }),
{
    reveal_strlit("--session-keep-alive");
    reveal_strlit("--session-keep-alive=");
    assert("--session-keep-alive="@ =~= "--session-keep-alive"@ + seq!['=']);
    assert("--session-keep-alive="@ + value =~= "--session-keep-alive"@ + seq!['='] + value);
    assert(spells(3, words, value));
    assert forall|j: int| 0 <= j < escape implies (names(3, #[trigger] rest[j]) <==> (
    rest[j] == "--session-keep-alive"@ || "--session-keep-alive="@.is_prefix_of(rest[j]))) by {}
    lemma_ids_differ();
    lemma_option(program, 3, words, value, rest, escape);
    let with = answer_to(proxy_args(), seq![program] + words + rest);
    let without = answer_to(proxy_args(), seq![program] + rest);
    if with is Settings && cli.spelled_by(with->Settings_0) && base.spelled_by(
        without->Settings_0,
    ) {
        lemma_same_command(cli, base);
    }
}

/// What the first word decides. Behind `--` stands the command, word by word, and every
/// option has its documented default; `--` with nothing behind it, an empty line, a word
/// that is no option and a flag without a value are errors; a request for the help text or
/// the version is answered, whatever follows.
pub proof fn law_first_word(program: Seq<char>, word: Seq<char>, rest: Seq<Seq<char>>, cli: Cli)
    ensures
        answer_to(proxy_args(), Seq::empty()) is Refusal,
        answer_to(proxy_args(), seq![program]) is Refusal,
        ({
            let answer = answer_to(proxy_args(), seq![program, word] + rest);
            let dashed = word.len() > 1 && word[0] == '-';
            let stranded = rest.len() == 0 || (rest[0].len() > 1 && rest[0][0] == '-');
            &&& word == "--help"@ ==> answer is LongHelp
            &&& word.len() > 1 && word[0] == '-' && word[1] == 'h' ==> answer is ShortHelp
            &&& word == "--version"@ ==> answer is Version
            &&& word.len() > 1 && word[0] == '-' && word[1] == 'V' ==> answer is Version
            &&& word == "--"@ && rest.len() == 0 ==> answer is Refusal
            &&& word == "--"@ && rest.len() > 0 ==> answer is Settings
            &&& word == "--"@ && answer is Settings ==> {
                &&& answer->Settings_0["host"@] == seq!["127.0.0.1"@]
                &&& answer->Settings_0["port"@] == seq!["8080"@]
                &&& answer->Settings_0["endpoint"@] == seq!["/mcp"@]
                &&& !answer->Settings_0.contains_key("session_keep_alive"@)
                &&& answer->Settings_0["command"@] == rest
            }
            &&& word == "--"@ && answer is Settings && cli.spelled_by(answer->Settings_0) ==> {
                &&& cli.host@ == "127.0.0.1"@
                &&& cli.port == 8080
                &&& cli.endpoint@ == "/mcp"@
                &&& cli.session_keep_alive is None
                &&& cli.command@.len() == rest.len()
                &&& forall|n: int|
                    0 <= n < rest.len() ==> (#[trigger] cli.command@[n])@ == rest[n]
            }
            &&& !dashed ==> answer is Refusal
            &&& dashed && word[1] != '-' && word[1] != 'H' && word[1] != 'p' && word[1] != 'e'
                && word[1] != 'h' && word[1] != 'V' ==> answer is Refusal
            &&& dashed && word[1] == '-' && word != "--"@ && word != "--help"@ && word
                != "--version"@ && word != "--host"@ && word != "--port"@ && word != "--endpoint"@
                && word != "--session-keep-alive"@ && !"--host="@.is_prefix_of(word)
                && !"--port="@.is_prefix_of(word) && !"--endpoint="@.is_prefix_of(word)
                && !"--session-keep-alive="@.is_prefix_of(word) ==> answer is Refusal
            &&& stranded && (word == "--host"@ || word == "--port"@ || word == "--endpoint"@ || word
                == "--session-keep-alive"@ || word == "-H"@ || word == "-p"@ || word == "-e"@)
                ==> answer is Refusal
        }),
{
    let args = proxy_args();
    let words = seq![word] + rest;
    reveal_strlit("--");
    reveal_strlit("-h");
    reveal_strlit("-V");
    reveal_strlit("-H");
    reveal_strlit("-p");
    reveal_strlit("-e");
    reveal_strlit("--help");
    reveal_strlit("--version");
    reveal_strlit("--host=");
    reveal_strlit("--port=");
    reveal_strlit("--endpoint=");
    reveal_strlit("--session-keep-alive=");
    reveal_strlit("--host");
    reveal_strlit("--port");
    reveal_strlit("--endpoint");
    reveal_strlit("--session-keep-alive");
    assert("--host="@ =~= "--host"@ + seq!['=']);
    assert("--port="@ =~= "--port"@ + seq!['=']);
    assert("--endpoint="@ =~= "--endpoint"@ + seq!['=']);
    assert("--session-keep-alive="@ =~= "--session-keep-alive"@ + seq!['=']);
    assert(words_of(seq![program]) =~= Seq::empty());
    assert(words_of(seq![program, word] + rest) =~= words);
    assert(words[0] == word);
    lemma_flag_texts(0);
    lemma_flag_texts(1);
    lemma_flag_texts(2);
    lemma_flag_texts(3);
    lemma_escape_is_no_flag();
    lemma_ids_differ();
    lemma_proxy_defaults();
    lemma_default_port();
    assert("-h"@.is_prefix_of(word) <==> word.len() > 1 && word[0] == '-' && word[1] == 'h') by {
        if word.len() > 1 {
            assert(word.subrange(0, 2)[0] == word[0] && word.subrange(0, 2)[1] == word[1]);
            if word[0] == '-' && word[1] == 'h' {
                assert(word.subrange(0, 2) =~= "-h"@);
            }
        }
    }
    assert("-V"@.is_prefix_of(word) <==> word.len() > 1 && word[0] == '-' && word[1] == 'V') by {
        if word.len() > 1 {
            assert(word.subrange(0, 2)[0] == word[0] && word.subrange(0, 2)[1] == word[1]);
            if word[0] == '-' && word[1] == 'V' {
                assert(word.subrange(0, 2) =~= "-V"@);
            }
        }
    }
    lemma_unnamed_word_is_no_option(word);
    if forall|i: int| 0 <= i < 4 ==> !(#[trigger] names(i, word)) {
        assert(read_line(args, words).rest == words);
        assert(read_line(args, words).options =~= Seq::empty());
        if word == "--"@ {
            assert(words.drop_first() =~= rest);
            assert(option_values(args, Seq::empty()) == default_values(args));
        }
    }
    assert forall|i: int| 0 <= i < 4 && #[trigger] names(i, word) implies word.len() > 1 && word[0]
        == '-' && (word[1] == '-' || letter(i) == Some(word[1])) by {
        lemma_flag_texts(i);
        if (long_flag(i) + seq!['=']).is_prefix_of(word) {
            let start = word.subrange(0, long_flag(i).len() as int + 1);
            assert(start[0] == word[0] && start[1] == word[1]);
        } else if word != long_flag(i) {
            let start = word.subrange(0, 2);
            assert(start[0] == word[0] && start[1] == word[1]);
        }
    }
    assert forall|i: int| 0 <= i < 4 && #[trigger] names(i, word) && word[1] == '-' implies word
        == long_flag(i) || (long_flag(i) + seq!['=']).is_prefix_of(word) by {
        if letter(i) is Some && seq!['-', letter(i)->0].is_prefix_of(word) {
            assert(word.subrange(0, 2)[1] == letter(i)->0);
        }
    }
    assert forall|i: int| 0 <= i < 4 && #[trigger] names(i, word) implies word != "--"@ && word
        != "--help"@ && word != "--version"@ by {
        lemma_flag_texts(i);
        if word[1] == '-' && word != long_flag(i) {
            let start = word.subrange(0, long_flag(i).len() as int + 1);
            assert(start[2] == word[2] && start[3] == word[3]);
            assert(start[2] == long_flag(i)[2] && start[3] == long_flag(i)[3]);
        }
    }
    if (rest.len() == 0 || (rest[0].len() > 1 && rest[0][0] == '-')) && (word == "--host"@ || word
        == "--port"@ || word == "--endpoint"@ || word == "--session-keep-alive"@ || word == "-H"@
        || word == "-p"@ || word == "-e"@) {
        lemma_bare_flag_is_not_attached(word);
        if rest.len() > 0 {
            assert(words[1] == rest[0]);
        }
        assert(read_line(args, words).rest == words);
        assert(word != "--"@ && word != "--help"@ && word != "--version"@);
    }
    let answer = answer_to(args, seq![program, word] + rest);
    if word == "--"@ && answer is Settings && cli.spelled_by(answer->Settings_0) {
        assert(texts_of(cli.command@).len() == cli.command@.len());
        assert forall|n: int| 0 <= n < rest.len() implies (#[trigger] cli.command@[n])@
            == rest[n] by {
            assert(texts_of(cli.command@)[n] == cli.command@[n]@);
        }
    }
}

/// A word that names no option is none.
proof fn lemma_unnamed_word_is_no_option(word: Seq<char>)
    ensures
        (forall|i: int| 0 <= i < 4 ==> !(#[trigger] names(i, word))) ==> attached(
            proxy_args(),
            word,
        ) is None && flagged(proxy_args(), word) is None,
{
    let args = proxy_args();
    if forall|i: int| 0 <= i < 4 ==> !(#[trigger] names(i, word)) {
        assert forall|i: int| 0 <= i < 4 implies !(#[trigger] mentions(args, word, i)) by {
            assert(!names(i, word));
            lemma_naming_is_mentioning(i, word);
        }
        lemma_flagged_texts(word);
        lemma_flagged_texts(word.take(2));
        word.index_of_first_ensures('=');
        if attached(args, word) is Some {
            lemma_flagged_texts(word.take(word.index_of_first('=')->0));
            assert(mentions(args, word, attached(args, word)->0.arg));
        } else if flagged(args, word) is Some {
            assert(mentions(args, word, flagged(args, word)->0));
        }
    }
}

/// A flag alone has no value of its own.
proof fn lemma_bare_flag_is_not_attached(word: Seq<char>)
    requires
        word == "--host"@ || word == "--port"@ || word == "--endpoint"@ || word
            == "--session-keep-alive"@ || word == "-H"@ || word == "-p"@ || word == "-e"@,
    ensures
        attached(proxy_args(), word) is None,
        word.len() > 1,
        word[0] == '-',
        word[1] != 'h' && word[1] != 'V',
{
    reveal_strlit("-H");
    reveal_strlit("-p");
    reveal_strlit("-e");
    let none = Seq::<char>::empty();
    let i: int = if word == "--host"@ || word == "-H"@ {
        0
    } else if word == "--port"@ || word == "-p"@ {
        1
    } else if word == "--endpoint"@ || word == "-e"@ {
        2
    } else {
        3
    };
    lemma_flag_texts(i);
    assert("-H"@ =~= seq!['-', 'H'] && "-p"@ =~= seq!['-', 'p'] && "-e"@ =~= seq!['-', 'e']);
    let words = seq![word, none];
    assert(words[0] == word && words.len() == 2);
    assert(spells(i, words, none));
    lemma_spelling_is_read(i, words, none);
}

/// Settings are spelled by values exactly where each of them is the first value of its
/// argument: texts as they are, numbers as their text denotes, and the keep-alive set
/// where there is a value for it; and the command is all values of its argument, word by
/// word.
pub proof fn law_settings_are_what_the_values_say(cli: Cli, values: Map<Seq<char>, Seq<Seq<char>>>)
    ensures
        cli.spelled_by(values) ==> {
            &&& cli.host@ == values["host"@][0]
            &&& decimal_value(values["port"@][0]) == Some(cli.port as int)
            &&& cli.endpoint@ == values["endpoint"@][0]
            &&& cli.session_keep_alive is Some <==> values.contains_key("session_keep_alive"@)
            &&& cli.session_keep_alive is Some ==> decimal_value(values["session_keep_alive"@][0])
                == Some(cli.session_keep_alive->0 as int)
            &&& cli.command@.len() == values["command"@].len()
            &&& forall|n: int|
                0 <= n < cli.command@.len() ==> (#[trigger] cli.command@[n])@
                    == values["command"@][n]
        },
{
    if cli.spelled_by(values) {
        assert(texts_of(cli.command@).len() == cli.command@.len());
        assert forall|n: int| 0 <= n < cli.command@.len() implies (#[trigger] cli.command@[n])@
            == values["command"@][n] by {
            assert(texts_of(cli.command@)[n] == cli.command@[n]@);
        }
    }
}

/// An option that is given twice in a row is an error, whatever follows, a request for the
/// help text included.
pub proof fn law_repeated_option_is_refused(
    program: Seq<char>,
    flag: Seq<char>,
    first: Seq<char>,
    second: Seq<char>,
    rest: Seq<Seq<char>>,
)
    requires
        flag == "--host"@ || flag == "-H"@ || flag == "--port"@ || flag == "-p"@ || flag
            == "--endpoint"@ || flag == "-e"@ || flag == "--session-keep-alive"@,
        !(first.len() > 1 && first[0] == '-'),
        !(second.len() > 1 && second[0] == '-'),
    ensures
        answer_to(proxy_args(), seq![program, flag, first, flag, second] + rest) is Refusal,
{
    reveal_strlit("-H");
    reveal_strlit("-p");
    reveal_strlit("-e");
    assert("-H"@ =~= seq!['-', 'H'] && "-p"@ =~= seq!['-', 'p'] && "-e"@ =~= seq!['-', 'e']);
    let args = proxy_args();
    let i: int = if flag == "--host"@ || flag == "-H"@ {
        0
    } else if flag == "--port"@ || flag == "-p"@ {
        1
    } else if flag == "--endpoint"@ || flag == "-e"@ {
        2
    } else {
        3
    };
    let again = seq![flag, second] + rest;
    assert(spells(i, seq![flag, first], first));
    assert(spells(i, seq![flag, second], second));
    lemma_spelling_is_read(i, seq![flag, first], first);
    lemma_spelling_is_read(i, seq![flag, second], second);
    lemma_option_is_read_first(args, i, seq![flag, second], second, rest);
    assert(read_line(args, again).options[0].arg == i);
    assert(gives(args, again, i));
    lemma_flag_texts(i);
    lemma_ids_differ();
    assert forall|j: int, k: int|
        0 <= j < args.len() && 0 <= k < args.len() && j != k implies (#[trigger] args[j]).id != (
    #[trigger] args[k]).id by {
        assert(j == 0 || j == 1 || j == 2 || j == 3 || j == 4);
        assert(k == 0 || k == 1 || k == 2 || k == 3 || k == 4);
    }
    assert(args[i].id != args[4].id);
    lemma_option_ahead_of_a_line(args, program, i, seq![flag, first], first, again);
    assert(seq![program, flag, first, flag, second] + rest =~= seq![program] + seq![flag, first]
        + again);
}

} // verus!
