//! Command lines as text: words quoted so that a shell reads them back.
use vstd::prelude::*;

use crate::qemu::command::QemuSupportedArch;
use crate::qemu::options::command_reading;
use crate::qemu::options::emulator_of;
use crate::text::char_is_alphanumeric;
use crate::text::chars_of;
use crate::text::is_alphanumeric;
use crate::text::join_texts;
use crate::text::joined;
use crate::text::lemma_texts_push;
use crate::text::texts;

verus! {

broadcast use lemma_texts_push;

/// Whether a character stands for itself in a shell word.
pub open spec fn is_shell_plain(c: char) -> bool {
    is_alphanumeric(c) || c == '_' || c == '-' || c == '.' || c == '/' || c == ':' || c == ','
        || c == '=' || c == '+'
}

/// Whether a word needs no quotes.
pub open spec fn is_shell_safe(s: Seq<char>) -> bool {
    s.len() > 0 && forall|i: int| 0 <= i < s.len() ==> is_shell_plain(#[trigger] s[i])
}

/// A text with each single quote written so that it may stand in single
/// quotes: the quotes are closed, the quote stands behind a backslash, and the
/// quotes are opened again.
pub open spec fn quote_escaped(s: Seq<char>) -> Seq<char>
    decreases s.len(),
{
    if s.len() == 0 {
        seq![]
    } else if s.last() == '\'' {
        quote_escaped(s.drop_last()) + seq!['\'', '\\', '\'', '\'']
    } else {
        quote_escaped(s.drop_last()).push(s.last())
    }
}

/// A word as it is written in a shell command line.
pub open spec fn shell_escaped(s: Seq<char>) -> Seq<char> {
    if is_shell_safe(s) {
        s
    } else {
        seq!['\''] + quote_escaped(s) + seq!['\'']
    }
}

/// Whether a character stands for itself in a shell word.
fn char_is_shell_plain(c: char) -> (r: bool)
    ensures
        r == is_shell_plain(c),
{
    char_is_alphanumeric(c) || c == '_' || c == '-' || c == '.' || c == '/' || c == ':' || c == ','
        || c == '=' || c == '+'
}

/// A word as it is written in a shell command line.
pub fn shell_escape_arg(arg: &str) -> (r: String)
    ensures
        r@ == shell_escaped(arg@),
{
    let v = chars_of(arg);
    let mut safe = v.len() > 0;
    for i in 0..v.len()
        invariant
            v@ == arg@,
            safe == (v.len() > 0 && forall|j: int| 0 <= j < i ==> is_shell_plain(#[trigger] arg@[j])),
    {
        safe = safe && char_is_shell_plain(v[i]);
    }
    if safe {
        return arg.to_owned();
    }
    let mut r = String::new();
    r.push('\'');
    proof {
        assert(r@ =~= seq!['\''] + quote_escaped(arg@.take(0)));
    }
    for i in 0..v.len()
        invariant
            v@ == arg@,
            r@ == seq!['\''] + quote_escaped(arg@.take(i as int)),
    {
        let ghost before = r@;
        proof {
            assert(arg@.take(i + 1).drop_last() =~= arg@.take(i as int));
            assert(arg@.take(i + 1).last() == arg@[i as int]);
        }
        if v[i] == '\'' {
            r.push('\'');
            r.push('\\');
            r.push('\'');
            r.push('\'');
        } else {
            r.push(v[i]);
        }
        proof {
            assert(r@ =~= seq!['\''] + quote_escaped(arg@.take(i + 1)));
        }
    }
    r.push('\'');
    proof {
        assert(arg@.take(arg@.len() as int) =~= arg@);
        assert(r@ =~= shell_escaped(arg@));
    }
    r
}

/// The words of a command line, each as it is written in a shell.
pub open spec fn shell_escaped_words(words: Seq<Seq<char>>) -> Seq<Seq<char>> {
    Seq::new(words.len(), |i: int| shell_escaped(words[i]))
}

/// A command line: its words as a shell takes them, with spaces between.
pub open spec fn shell_line(words: Seq<Seq<char>>) -> Seq<char> {
    joined(shell_escaped_words(words), seq![' '])
}

/// The command line of a row of words.
pub fn to_shell_line(words: &Vec<String>) -> (r: String)
    ensures
        r@ == shell_line(texts(words@)),
{
    let mut escaped: Vec<String> = Vec::new();
    let ghost all = shell_escaped_words(texts(words@));
    for i in 0..words.len()
        invariant
            all == shell_escaped_words(texts(words@)),
            texts(escaped@) == all.take(i as int),
    {
        escaped.push(shell_escape_arg(words[i].as_str()));
        proof {
            assert(all.take(i + 1) =~= all.take(i as int).push(all[i as int]));
        }
    }
    proof {
        assert(all.take(words@.len() as int) =~= all);
        reveal_strlit(" ");
        assert(" "@ =~= seq![' ']);
    }
    join_texts(&escaped, " ")
}

/// The QEMU command that a command line stands for.
pub fn convert_cmd_line_to_qemu_instance(command_line: &str) -> (r: Result<
    QemuSupportedArch,
    String,
>)
    ensures
        match r {
            Ok(qemu) => command_reading(command_line@) == Ok::<(bool, Seq<Seq<char>>), Seq<char>>(
                (qemu@.x86, qemu@.words),
            ),
            Err(message) => command_reading(command_line@) == Err::<
                (bool, Seq<Seq<char>>),
                Seq<char>,
            >(message@),
        },
        r matches Ok(qemu) ==> emulator_of(command_line@) == Some(qemu@.x86) && qemu@.words.len() > 0,
{
    QemuSupportedArch::parse(command_line)
}

/// The QEMU command that a row of words stands for: that of the command line
/// made of them. Without any word there is none.
pub fn convert_cmd_line_arg_to_qemu_instance(args: Vec<String>) -> (r: Result<
    QemuSupportedArch,
    String,
>)
    ensures
        args@.len() == 0 ==> r is Err && r->Err_0@ == "no QEMU command arguments supplied"@,
        args@.len() > 0 ==> match r {
            Ok(qemu) => command_reading(shell_line(texts(args@))) == Ok::<
                (bool, Seq<Seq<char>>),
                Seq<char>,
            >((qemu@.x86, qemu@.words)),
            Err(message) => command_reading(shell_line(texts(args@))) == Err::<
                (bool, Seq<Seq<char>>),
                Seq<char>,
            >(message@),
        },
        r matches Ok(qemu) ==> emulator_of(shell_line(texts(args@))) == Some(qemu@.x86)
            && qemu@.words.len() > 0,
{
    if args.len() == 0 {
        return Err("no QEMU command arguments supplied".to_owned());
    }
    convert_cmd_line_to_qemu_instance(to_shell_line(&args).as_str())
}

/// What a shell reads from a text that is one word: the characters between
/// single quotes as they are, and elsewhere the character behind a backslash;
/// a text with an open quote, with a space outside quotes or ending in a
/// backslash is no word.
pub open spec fn shell_word(s: Seq<char>, quoted: bool) -> Option<Seq<char>>
    decreases s.len(),
{
    if s.len() == 0 {
        if quoted {
            None
        } else {
            Some(seq![])
        }
    } else if s[0] == '\'' {
        shell_word(s.drop_first(), !quoted)
    } else if !quoted && s[0] == ' ' {
        None
    } else if !quoted && s[0] == '\\' {
        if s.len() == 1 {
            None
        } else {
            match shell_word(s.skip(2), false) {
                Some(rest) => Some(seq![s[1]] + rest),
                None => None,
            }
        }
    } else {
        match shell_word(s.drop_first(), quoted) {
            Some(rest) => Some(seq![s[0]] + rest),
            None => None,
        }
    }
}

/// A shell reads characters that stand for themselves as they are.
proof fn lemma_plain_word(s: Seq<char>)
    requires
        forall|i: int| 0 <= i < s.len() ==> is_shell_plain(#[trigger] s[i]),
    ensures
        shell_word(s, false) == Some(s),
    decreases s.len(),
{
    if s.len() > 0 {
        let rest = s.drop_first();
        assert forall|i: int| 0 <= i < rest.len() implies is_shell_plain(#[trigger] rest[i]) by {
            assert(rest[i] == s[i + 1]);
        }
        lemma_plain_word(rest);
        assert(is_shell_plain(s[0]));
        assert(seq![s[0]] + rest =~= s);
    } else {
        assert(s =~= seq![]);
    }
}

/// The text of a word in quotes, taken apart at its first character.
proof fn lemma_quote_escaped_front(s: Seq<char>)
    requires
        s.len() > 0,
    ensures
        quote_escaped(s) == (if s[0] == '\'' {
            seq!['\'', '\\', '\'', '\'']
        } else {
            seq![s[0]]
        }) + quote_escaped(s.drop_first()),
    decreases s.len(),
{
    if s.len() == 1 {
        assert(s.drop_last() =~= seq![]);
        assert(s.drop_first() =~= seq![]);
        assert(quote_escaped(s.drop_last()) =~= seq![]);
        assert(quote_escaped(s) =~= (if s[0] == '\'' {
            seq!['\'', '\\', '\'', '\'']
        } else {
            seq![s[0]]
        }) + quote_escaped(s.drop_first()));
    } else {
        lemma_quote_escaped_front(s.drop_last());
        assert(s.drop_last().drop_first() =~= s.drop_first().drop_last());
        assert(s.drop_first().last() == s.last());
        assert(quote_escaped(s) =~= (if s[0] == '\'' {
            seq!['\'', '\\', '\'', '\'']
        } else {
            seq![s[0]]
        }) + quote_escaped(s.drop_first()));
    }
}

/// Within quotes, an escaped text and the closing quote are read as the text.
proof fn lemma_quoted_word(s: Seq<char>)
    ensures
        shell_word(quote_escaped(s) + seq!['\''], true) == Some(s),
    decreases s.len(),
{
    let t = quote_escaped(s) + seq!['\''];
    if s.len() == 0 {
        assert(t =~= seq!['\'']);
        assert(t.drop_first() =~= seq![]);
        assert(shell_word(seq![], false) == Some(Seq::<char>::empty()));
        assert(s =~= seq![]);
    } else {
        let rest = s.drop_first();
        lemma_quoted_word(rest);
        lemma_quote_escaped_front(s);
        let u = quote_escaped(rest) + seq!['\''];
        assert(seq![s[0]] + rest =~= s);
        if s[0] == '\'' {
            assert(t =~= seq!['\'', '\\', '\'', '\''] + u);
            let t1 = t.drop_first();
            assert(t1 =~= seq!['\\', '\'', '\''] + u);
            let t2 = t1.skip(2);
            assert(t2 =~= seq!['\''] + u);
            assert(t2.drop_first() =~= u);
            assert(shell_word(t2, false) == Some(rest));
            assert(shell_word(t1, false) == Some(seq!['\''] + rest));
        } else {
            assert(t =~= seq![s[0]] + u);
            assert(t.drop_first() =~= u);
        }
    }
}

/// A shell reads a quoted word back as the word that was quoted.
pub proof fn law_shell_reads_word_back(arg: Seq<char>)
    ensures
        shell_word(shell_escaped(arg), false) == Some(arg),
{
    if is_shell_safe(arg) {
        lemma_plain_word(arg);
    } else {
        let t = shell_escaped(arg);
        lemma_quoted_word(arg);
        assert(t.drop_first() =~= quote_escaped(arg) + seq!['\'']);
    }
}

/// A word of letters, digits and the signs that need no quotes is written as it
/// is, and any other, the empty one among them, stands in single quotes.
pub proof fn law_quoted_words(s: Seq<char>)
    ensures
        ({
            let plain = forall|i: int|
                0 <= i < s.len() ==> is_alphanumeric(#[trigger] s[i]) || s[i] == '_' || s[i] == '-'
                    || s[i] == '.' || s[i] == '/' || s[i] == ':' || s[i] == ',' || s[i] == '='
                    || s[i] == '+';
            let written = shell_escaped(s);
            &&& s.len() > 0 && plain ==> written == s
            &&& s.len() == 0 || !plain ==> written.len() >= 2 && written[0] == '\'' && written.last()
                == '\''
        }),
{
}

/// A command line has its words in order, each as a shell takes it, with one
/// space between each two.
pub proof fn law_shell_lines(words: Seq<Seq<char>>, word: Seq<char>)
    ensures
        shell_line(Seq::empty()) == Seq::<char>::empty(),
        shell_line(seq![word]) == shell_escaped(word),
        words.len() > 0 ==> shell_line(words.push(word)) == shell_line(words) + seq![' ']
            + shell_escaped(word),
{
    assert(shell_escaped_words(words.push(word)).drop_last() =~= shell_escaped_words(words));
}

} // verus!
