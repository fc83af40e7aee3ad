//! Friendly names for Windows integrations, which are keyed by executable name.
//!
//! A few executables have names that do not speak for themselves — olk.exe
//! gives no hint that it is Outlook — so they are looked up in a table. Any
//! other name is prettified from its file name: "some-app.exe" becomes
//! "Some App".
use vstd::prelude::*;
use crate::text::{char_uppercase, chars_of, ends_with_chars, ends_with_seq, str_equal, uppercase_of};

verus! {

/// Executables whose friendly names are known, with those names.
pub open spec fn known_names() -> Seq<(Seq<char>, Seq<char>)> {
    seq![
        ("notepad.exe"@, "Notepad"@),
        ("olk.exe"@, "Outlook (new)"@),
        ("outlook.exe"@, "Outlook (classic)"@),
        ("ms-teams.exe"@, "Microsoft Teams"@),
        ("slack.exe"@, "Slack"@),
        ("discord.exe"@, "Discord"@),
        ("chrome.exe"@, "Google Chrome"@),
        ("msedge.exe"@, "Microsoft Edge"@),
        ("firefox.exe"@, "Mozilla Firefox"@),
        ("winword.exe"@, "Microsoft Word"@),
        ("excel.exe"@, "Microsoft Excel"@),
        ("powerpnt.exe"@, "Microsoft PowerPoint"@),
        ("onenote.exe"@, "Microsoft OneNote"@),
        ("code.exe"@, "Visual Studio Code"@),
        ("obsidian.exe"@, "Obsidian"@),
        ("windowsterminal.exe"@, "Windows Terminal"@),
        ("wt.exe"@, "Windows Terminal"@),
    ]
}

/// The name of the first entry of `table` for `executable`, if any.
pub open spec fn lookup_name(table: Seq<(Seq<char>, Seq<char>)>, executable: Seq<char>) -> Option<
    Seq<char>,
>
    decreases table.len(),
{
    if table.len() == 0 {
        None
    } else if table[0].0 == executable {
        Some(table[0].1)
    } else {
        lookup_name(table.drop_first(), executable)
    }
}

/// Characters that separate the words of an executable's file name.
pub open spec fn is_name_separator(c: char) -> bool {
    c == '-' || c == '_' || c == '.'
}

/// The words of `name`: its maximal runs of non-separator characters, in order.
pub open spec fn name_words(name: Seq<char>) -> Seq<Seq<char>>
    decreases name.len(),
{
    if name.len() == 0 {
        seq![]
    } else {
        let words = name_words(name.drop_last());
        let c = name.last();
        if is_name_separator(c) {
            words
        } else if name.len() >= 2 && !is_name_separator(name[name.len() - 2]) {
            words.update(words.len() - 1, words.last().push(c))
        } else {
            words.push(seq![c])
        }
    }
}

/// `word` with its first character uppercased.
pub open spec fn capitalized(word: Seq<char>) -> Seq<char> {
    if word.len() == 0 {
        word
    } else {
        char_uppercase(word[0]) + word.drop_first()
    }
}

/// `words` joined by single spaces.
pub open spec fn joined(words: Seq<Seq<char>>) -> Seq<char>
    decreases words.len(),
{
    if words.len() == 0 {
        seq![]
    } else if words.len() == 1 {
        words[0]
    } else {
        joined(words.drop_last()) + seq![' '] + words.last()
    }
}

/// The prettified form of a file stem: its words, capitalized, joined by
/// spaces.
pub open spec fn pretty_name(stem: Seq<char>) -> Seq<char> {
    joined(name_words(stem).map_values(|word: Seq<char>| capitalized(word)))
}

/// `executable` without a trailing ".exe".
pub open spec fn file_stem(executable: Seq<char>) -> Seq<char> {
    if ends_with_seq(executable, ".exe"@) {
        executable.take(executable.len() - 4)
    } else {
        executable
    }
}

/// The friendly name of `executable`: the known name if there is one, else
/// its prettified stem, else the executable name itself.
pub open spec fn display_name(executable: Seq<char>) -> Seq<char> {
    match lookup_name(known_names(), executable) {
        Some(name) => name,
        None => if pretty_name(file_stem(executable)).len() == 0 {
            executable
        } else {
            pretty_name(file_stem(executable))
        },
    }
}

/// Every word is non-empty, and a name ending in a word character has a word.
proof fn lemma_words_shape(name: Seq<char>)
    ensures
        forall|k: int| 0 <= k < name_words(name).len() ==> #[trigger] name_words(name)[k].len() > 0,
        name.len() > 0 && !is_name_separator(name.last()) ==> name_words(name).len() > 0,
    decreases name.len(),
{
    if name.len() > 0 {
        lemma_words_shape(name.drop_last());
        let words = name_words(name.drop_last());
        if name.len() >= 2 && !is_name_separator(name[name.len() - 2]) {
            assert(name.drop_last().last() == name[name.len() - 2]);
        }
        let after = name_words(name);
        assert forall|k: int| 0 <= k < after.len() implies #[trigger] after[k].len() > 0 by {
            if !is_name_separator(name.last()) && name.len() >= 2 && !is_name_separator(
                name[name.len() - 2],
            ) {
                if k == words.len() - 1 {
                } else {
                    assert(after[k] == words[k]);
                }
            } else if !is_name_separator(name.last()) {
                if k < words.len() {
                    assert(after[k] == words[k]);
                }
            }
        }
    }
}

/// Joining after extending the last word extends the joined text.
proof fn lemma_joined_extend_last(words: Seq<Seq<char>>, c: char)
    requires
        words.len() > 0,
    ensures
        joined(words.update(words.len() - 1, words.last().push(c))) == joined(words).push(c),
{
    let updated = words.update(words.len() - 1, words.last().push(c));
    if words.len() > 1 {
        assert(updated.drop_last() =~= words.drop_last());
    }
}

/// Joining after adding a word appends a space (unless it is the first) and
/// the word.
proof fn lemma_joined_push(words: Seq<Seq<char>>, word: Seq<char>)
    ensures
        joined(words.push(word)) == if words.len() == 0 {
            word
        } else {
            joined(words) + seq![' '] + word
        },
{
    assert(words.push(word).drop_last() =~= words);
}

/// The character table behind [`known_name`].
fn known_table() -> (table: Vec<(&'static str, &'static str)>)
    ensures
        table@.len() == known_names().len(),
        forall|i: int|
            0 <= i < table@.len() ==> (#[trigger] table@[i]).0@ == known_names()[i].0 && table@[i].1@
                == known_names()[i].1,
{
    vec![
        ("notepad.exe", "Notepad"),
        ("olk.exe", "Outlook (new)"),
        ("outlook.exe", "Outlook (classic)"),
        ("ms-teams.exe", "Microsoft Teams"),
        ("slack.exe", "Slack"),
        ("discord.exe", "Discord"),
        ("chrome.exe", "Google Chrome"),
        ("msedge.exe", "Microsoft Edge"),
        ("firefox.exe", "Mozilla Firefox"),
        ("winword.exe", "Microsoft Word"),
        ("excel.exe", "Microsoft Excel"),
        ("powerpnt.exe", "Microsoft PowerPoint"),
        ("onenote.exe", "Microsoft OneNote"),
        ("code.exe", "Visual Studio Code"),
        ("obsidian.exe", "Obsidian"),
        ("windowsterminal.exe", "Windows Terminal"),
        ("wt.exe", "Windows Terminal"),
    ]
}

/// The known friendly name of `executable`, if it has one.
pub fn known_name(executable: &str) -> (name: Option<&'static str>)
    ensures
        match name {
            Some(name) => lookup_name(known_names(), executable@) == Some(name@),
            None => lookup_name(known_names(), executable@) is None,
        },
{
    let table = known_table();
    let ghost names = known_names();
    let mut i: usize = 0;
    assert(names.skip(0) =~= names);
    while i < table.len()
        invariant
            i <= table@.len(),
            names == known_names(),
            table@.len() == names.len(),
            forall|j: int|
                0 <= j < table@.len() ==> (#[trigger] table@[j]).0@ == names[j].0 && table@[j].1@
                    == names[j].1,
            lookup_name(names, executable@) == lookup_name(names.skip(i as int), executable@),
        decreases table@.len() - i,
    {
        assert(names.skip(i as int)[0] == names[i as int]);
        assert(names.skip(i as int).drop_first() =~= names.skip(i + 1));
        if str_equal(table[i].0, executable) {
            return Some(table[i].1);
        }
        i = i + 1;
    }
    assert(names.skip(i as int).len() == 0);
    None
}

/// The prettified form of the file stem `stem`.
pub fn prettify(stem: &[char]) -> (pretty: Vec<char>)
    ensures
        pretty@ == pretty_name(stem@),
{
    let mut pretty: Vec<char> = Vec::new();
    let mut in_word = false;
    let mut any_word = false;
    let mut i: usize = 0;
    assert(stem@.take(0) =~= Seq::<char>::empty());
    while i < stem.len()
        invariant
            i <= stem@.len(),
            pretty@ == pretty_name(stem@.take(i as int)),
            in_word == (i > 0 && !is_name_separator(stem@[i - 1])),
            any_word == (name_words(stem@.take(i as int)).len() > 0),
        decreases stem@.len() - i,
    {
        let c = stem[i];
        let ghost before = stem@.take(i as int);
        let ghost after = stem@.take(i + 1);
        let ghost words = name_words(before);
        assert(after.drop_last() =~= before);
        assert(after.last() == c);
        proof {
            lemma_words_shape(before);
            if i > 0 {
                assert(before.last() == stem@[i - 1]);
                assert(after[after.len() - 2] == stem@[i - 1]);
            }
        }
        if c == '-' || c == '_' || c == '.' {
            in_word = false;
        } else if in_word {
            proof {
                let caps = words.map_values(|word: Seq<char>| capitalized(word));
                let last = words.last();
                assert(last.len() > 0);
                assert(capitalized(last.push(c)) =~= capitalized(last).push(c));
                assert(words.update(words.len() - 1, last.push(c)).map_values(
                    |word: Seq<char>| capitalized(word),
                ) =~= caps.update(caps.len() - 1, caps.last().push(c)));
                lemma_joined_extend_last(caps, c);
            }
            pretty.push(c);
        } else {
            if any_word {
                pretty.push(' ');
            }
            let upper = uppercase_of(c);
            let mut k: usize = 0;
            let ghost base = pretty@;
            while k < upper.len()
                invariant
                    k <= upper@.len(),
                    pretty@ == base + upper@.take(k as int),
                decreases upper@.len() - k,
            {
                pretty.push(upper[k]);
                k = k + 1;
                assert(pretty@ =~= base + upper@.take(k as int));
            }
            proof {
                assert(upper@.take(k as int) =~= upper@);
                let caps = words.map_values(|word: Seq<char>| capitalized(word));
                assert(capitalized(seq![c]) =~= char_uppercase(c));
                assert(words.push(seq![c]).map_values(|word: Seq<char>| capitalized(word))
                    =~= caps.push(char_uppercase(c)));
                lemma_joined_push(caps, char_uppercase(c));
            }
            in_word = true;
            any_word = true;
        }
        i = i + 1;
    }
    assert(stem@.take(i as int) =~= stem@);
    pretty
}

/// The friendly name of the executable `executable`.
pub fn integration_display_name(executable: &str) -> (name: String)
    ensures
        name@ == display_name(executable@),
{
    if let Some(known) = known_name(executable) {
        return known.to_owned();
    }
    let chars = chars_of(executable);
    let suffix = chars_of(".exe");
    proof {
        reveal_strlit(".exe");
    }
    let stem_len = if ends_with_chars(chars.as_slice(), suffix.as_slice()) {
        chars.len() - 4
    } else {
        chars.len()
    };
    let mut stem: Vec<char> = Vec::new();
    let mut i: usize = 0;
    while i < stem_len
        invariant
            stem_len <= chars@.len(),
            i <= stem_len,
            stem@ == chars@.take(i as int),
        decreases stem_len - i,
    {
        stem.push(chars[i]);
        i = i + 1;
        assert(stem@ =~= chars@.take(i as int));
    }
    assert(stem@ =~= file_stem(executable@));
    let pretty = prettify(stem.as_slice());
    if pretty.len() == 0 {
        executable.to_owned()
    } else {
        crate::text::string_from_chars(pretty.as_slice())
    }
}

/// The executables of the known-name table are pairwise different.
proof fn lemma_known_executables_distinct(a: int, b: int)
    requires
        0 <= a < b < known_names().len(),
    ensures
        known_names()[a].0 != known_names()[b].0,
{
    reveal_strlit("notepad.exe");
    reveal_strlit("olk.exe");
    reveal_strlit("outlook.exe");
    reveal_strlit("ms-teams.exe");
    reveal_strlit("slack.exe");
    reveal_strlit("discord.exe");
    reveal_strlit("chrome.exe");
    reveal_strlit("msedge.exe");
    reveal_strlit("firefox.exe");
    reveal_strlit("winword.exe");
    reveal_strlit("excel.exe");
    reveal_strlit("powerpnt.exe");
    reveal_strlit("onenote.exe");
    reveal_strlit("code.exe");
    reveal_strlit("obsidian.exe");
    reveal_strlit("windowsterminal.exe");
    reveal_strlit("wt.exe");
    assert("notepad.exe"@.len() == 11 && "notepad.exe"@[0] == 'n' && "notepad.exe"@[1] == 'o');
    assert("olk.exe"@.len() == 7 && "olk.exe"@[0] == 'o' && "olk.exe"@[1] == 'l');
    assert("outlook.exe"@.len() == 11 && "outlook.exe"@[0] == 'o' && "outlook.exe"@[1] == 'u');
    assert("ms-teams.exe"@.len() == 12 && "ms-teams.exe"@[0] == 'm' && "ms-teams.exe"@[1] == 's');
    assert("slack.exe"@.len() == 9 && "slack.exe"@[0] == 's' && "slack.exe"@[1] == 'l');
    assert("discord.exe"@.len() == 11 && "discord.exe"@[0] == 'd' && "discord.exe"@[1] == 'i');
    assert("chrome.exe"@.len() == 10 && "chrome.exe"@[0] == 'c' && "chrome.exe"@[1] == 'h');
    assert("msedge.exe"@.len() == 10 && "msedge.exe"@[0] == 'm' && "msedge.exe"@[1] == 's');
    assert("firefox.exe"@.len() == 11 && "firefox.exe"@[0] == 'f' && "firefox.exe"@[1] == 'i');
    assert("winword.exe"@.len() == 11 && "winword.exe"@[0] == 'w' && "winword.exe"@[1] == 'i');
    assert("excel.exe"@.len() == 9 && "excel.exe"@[0] == 'e' && "excel.exe"@[1] == 'x');
    assert("powerpnt.exe"@.len() == 12 && "powerpnt.exe"@[0] == 'p' && "powerpnt.exe"@[1] == 'o');
    assert("onenote.exe"@.len() == 11 && "onenote.exe"@[0] == 'o' && "onenote.exe"@[1] == 'n');
    assert("code.exe"@.len() == 8 && "code.exe"@[0] == 'c' && "code.exe"@[1] == 'o');
    assert("obsidian.exe"@.len() == 12 && "obsidian.exe"@[0] == 'o' && "obsidian.exe"@[1] == 'b');
    assert("windowsterminal.exe"@.len() == 19 && "windowsterminal.exe"@[0] == 'w' && "windowsterminal.exe"@[1] == 'i');
    assert("wt.exe"@.len() == 6 && "wt.exe"@[0] == 'w' && "wt.exe"@[1] == 't');
}

/// The first entry of `table` for `x` is the one at `i` when no earlier entry
/// is for `x`.
proof fn lemma_lookup_finds(table: Seq<(Seq<char>, Seq<char>)>, x: Seq<char>, i: int)
    requires
        0 <= i < table.len(),
        table[i].0 == x,
        forall|j: int| 0 <= j < i ==> table[j].0 != x,
    ensures
        lookup_name(table, x) == Some(table[i].1),
    decreases i,
{
    if i > 0 {
        assert(table[0].0 != x);
        assert forall|j: int| 0 <= j < i - 1 implies table.drop_first()[j].0 != x by {
            assert(table.drop_first()[j] == table[j + 1]);
        }
        lemma_lookup_finds(table.drop_first(), x, i - 1);
    }
}

/// The executable at row `i` of the known-name table is shown under that
/// row's name.
proof fn lemma_known_name_at(i: int)
    requires
        0 <= i < known_names().len(),
    ensures
        display_name(known_names()[i].0) == known_names()[i].1,
{
    assert forall|j: int| 0 <= j < i implies known_names()[j].0 != known_names()[i].0 by {
        lemma_known_executables_distinct(j, i);
    }
    lemma_lookup_finds(known_names(), known_names()[i].0, i);
}

/// Each executable whose file name does not speak for itself is shown under
/// its own friendly name: classic and new Outlook apart, both Windows
/// Terminal executables as Windows Terminal.
pub proof fn lemma_known_executables_have_their_names()
    ensures
        display_name("notepad.exe"@) == "Notepad"@,
        display_name("olk.exe"@) == "Outlook (new)"@,
        display_name("outlook.exe"@) == "Outlook (classic)"@,
        display_name("ms-teams.exe"@) == "Microsoft Teams"@,
        display_name("slack.exe"@) == "Slack"@,
        display_name("discord.exe"@) == "Discord"@,
        display_name("chrome.exe"@) == "Google Chrome"@,
        display_name("msedge.exe"@) == "Microsoft Edge"@,
        display_name("firefox.exe"@) == "Mozilla Firefox"@,
        display_name("winword.exe"@) == "Microsoft Word"@,
        display_name("excel.exe"@) == "Microsoft Excel"@,
        display_name("powerpnt.exe"@) == "Microsoft PowerPoint"@,
        display_name("onenote.exe"@) == "Microsoft OneNote"@,
        display_name("code.exe"@) == "Visual Studio Code"@,
        display_name("obsidian.exe"@) == "Obsidian"@,
        display_name("windowsterminal.exe"@) == "Windows Terminal"@,
        display_name("wt.exe"@) == "Windows Terminal"@,
        display_name("outlook.exe"@) != display_name("olk.exe"@),
{
    reveal_strlit("Outlook (new)");
    reveal_strlit("Outlook (classic)");
    assert("Outlook (new)"@.len() != "Outlook (classic)"@.len());
    lemma_known_name_at(0);
    lemma_known_name_at(1);
    lemma_known_name_at(2);
    lemma_known_name_at(3);
    lemma_known_name_at(4);
    lemma_known_name_at(5);
    lemma_known_name_at(6);
    lemma_known_name_at(7);
    lemma_known_name_at(8);
    lemma_known_name_at(9);
    lemma_known_name_at(10);
    lemma_known_name_at(11);
    lemma_known_name_at(12);
    lemma_known_name_at(13);
    lemma_known_name_at(14);
    lemma_known_name_at(15);
    lemma_known_name_at(16);
}

} // verus!
