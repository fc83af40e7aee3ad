//! Discovering applications for the settings "Add application…" flow.
//!
//! Windows has no single installed-apps registry that covers everything, so
//! three sources are merged:
//!
//! 1. a curated list of well-known executables — this is what surfaces
//!    Store-packaged apps such as new Outlook and Teams, which appear in
//!    neither of the other sources;
//! 2. processes that currently own a visible top-level window — whatever the
//!    user is actually running, packaged or not;
//! 3. the `App Paths` registry keys — installed classic applications such as
//!    Chrome and Office, whether or not they are running.
//!
//! Reading the last two is the operating system's business; merging them is
//! done here.
use vstd::prelude::*;
use crate::order::{insert_sorted_unique, strictly_sorted, views};
use crate::text::{chars_of, ends_with_chars, ends_with_seq, lowercase, str_equal, to_lowercase};

verus! {

/// Executables that own windows but are not applications a user would enable.
pub open spec fn noise() -> Seq<Seq<char>> {
    seq![
        "harper-desktop.exe"@,
        "msedgewebview2.exe"@,
        "explorer.exe"@,
        "searchhost.exe"@,
        "textinputhost.exe"@,
        "applicationframehost.exe"@,
        "shellexperiencehost.exe"@,
        "startmenuexperiencehost.exe"@,
        "systemsettings.exe"@,
    ]
}

/// Well-known apps worth offering even when neither running nor registered.
pub open spec fn curated_executables() -> Seq<Seq<char>> {
    seq![
        "notepad.exe"@,
        "olk.exe"@,
        "outlook.exe"@,
        "ms-teams.exe"@,
        "slack.exe"@,
        "discord.exe"@,
        "winword.exe"@,
        "excel.exe"@,
        "powerpnt.exe"@,
        "onenote.exe"@,
        "code.exe"@,
        "obsidian.exe"@,
    ]
}

/// The executables offered for the given running and registered ones: every
/// source merged, the noise left out.
pub open spec fn discovered(running: Seq<Seq<char>>, registered: Seq<Seq<char>>) -> Set<Seq<char>> {
    curated_executables().to_set().union(running.to_set()).union(registered.to_set()).filter(
        |name: Seq<char>| !noise().contains(name),
    )
}

fn noise_names() -> (names: Vec<&'static str>)
    ensures
        names@.len() == noise().len(),
        forall|i: int| 0 <= i < names@.len() ==> (#[trigger] names@[i])@ == noise()[i],
{
    vec![
        "harper-desktop.exe",
        "msedgewebview2.exe",
        "explorer.exe",
        "searchhost.exe",
        "textinputhost.exe",
        "applicationframehost.exe",
        "shellexperiencehost.exe",
        "startmenuexperiencehost.exe",
        "systemsettings.exe",
    ]
}

/// Whether `executable` is one that owns windows but is not an application a
/// user would enable.
pub fn is_noise(executable: &str) -> (noisy: bool)
    ensures
        noisy == noise().contains(executable@),
{
    let names = noise_names();
    let mut i: usize = 0;
    while i < names.len()
        invariant
            i <= names@.len(),
            names@.len() == noise().len(),
            forall|j: int| 0 <= j < names@.len() ==> (#[trigger] names@[j])@ == noise()[j],
            forall|j: int| 0 <= j < i ==> noise()[j] != executable@,
        decreases names@.len() - i,
    {
        if str_equal(names[i], executable) {
            assert(noise()[i as int] == executable@);
            return true;
        }
        i = i + 1;
    }
    false
}

/// Well-known apps worth offering even when neither running nor registered.
pub fn curated() -> (executables: Vec<String>)
    ensures
        views(executables@) == curated_executables(),
{
    let names = vec![
        "notepad.exe",
        "olk.exe",
        "outlook.exe",
        "ms-teams.exe",
        "slack.exe",
        "discord.exe",
        "winword.exe",
        "excel.exe",
        "powerpnt.exe",
        "onenote.exe",
        "code.exe",
        "obsidian.exe",
    ];
    let ghost expected = curated_executables();
    assert(names@.len() == expected.len());
    let mut executables: Vec<String> = Vec::new();
    let mut i: usize = 0;
    while i < names.len()
        invariant
            i <= names@.len(),
            names@.len() == expected.len(),
            expected == curated_executables(),
            forall|j: int| 0 <= j < names@.len() ==> (#[trigger] names@[j])@ == expected[j],
            views(executables@) == expected.take(i as int),
        decreases names@.len() - i,
    {
        let ghost previous = executables@;
        let name = names[i].to_owned();
        assert(name@ == expected[i as int]);
        executables.push(name);
        assert(executables@ == previous.push(name));
        assert(views(executables@) =~= views(previous).push(name@));
        i = i + 1;
        assert(views(executables@) =~= expected.take(i as int));
    }
    assert(expected.take(i as int) =~= expected);
    executables
}

/// Adds every item of `items` that is not noise to the sorted set `set`.
fn add_all(set: &mut Vec<String>, items: &[String])
    requires
        strictly_sorted(views(old(set)@)),
    ensures
        strictly_sorted(views(final(set)@)),
        views(final(set)@).to_set() == views(old(set)@).to_set().union(
            views(items@).to_set().filter(|name: Seq<char>| !noise().contains(name)),
        ),
{
    let ghost before = views(set@).to_set();
    let mut i: usize = 0;
    while i < items.len()
        invariant
            i <= items@.len(),
            strictly_sorted(views(set@)),
            views(set@).to_set() == before.union(
                views(items@.take(i as int)).to_set().filter(|name: Seq<char>| !noise().contains(name)),
            ),
        decreases items@.len() - i,
    {
        let ghost previous = views(set@).to_set();
        let ghost item = items@[i as int]@;
        let ghost kept_before = views(items@.take(i as int)).to_set().filter(
            |name: Seq<char>| !noise().contains(name),
        );
        let ghost kept_after = views(items@.take(i + 1)).to_set().filter(
            |name: Seq<char>| !noise().contains(name),
        );
        assert(views(items@.take(i + 1)) =~= views(items@.take(i as int)).push(item));
        assert(views(items@.take(i + 1)).to_set() =~= views(items@.take(i as int)).to_set().insert(
            item,
        )) by {
            views(items@.take(i as int)).lemma_push_to_set_commute(item);
        }
        if !is_noise(items[i].as_str()) {
            let copy = items[i].clone();
            insert_sorted_unique(set, copy);
            assert(kept_after =~= kept_before.insert(item));
        } else {
            assert(kept_after =~= kept_before);
        }
        assert(views(set@).to_set() =~= before.union(kept_after));
        i = i + 1;
    }
    assert(items@.take(i as int) =~= items@);
}

/// Lowercase executable names of every discoverable application, sorted and
/// without duplicates, given the executables that own visible windows
/// (`running`) and those registered under the `App Paths` keys (`registered`).
pub fn discover_executables(running: &[String], registered: &[String]) -> (executables: Vec<String>)
    ensures
        strictly_sorted(views(executables@)),
        views(executables@).to_set() == discovered(views(running@), views(registered@)),
{
    let mut executables: Vec<String> = Vec::new();
    let curated = curated();
    assert(views(executables@).to_set() =~= Set::empty());
    add_all(&mut executables, curated.as_slice());
    add_all(&mut executables, running);
    add_all(&mut executables, registered);
    assert(views(executables@).to_set() =~= discovered(views(running@), views(registered@)));
    executables
}

/// The executable registered under the `App Paths` sub-key `sub_key`: the key
/// lowercased, when it names an `.exe`.
pub fn registered_executable(sub_key: &str) -> (executable: Option<String>)
    ensures
        match executable {
            Some(name) => name@ == lowercase(sub_key@) && ends_with_seq(name@, ".exe"@),
            None => !ends_with_seq(lowercase(sub_key@), ".exe"@),
        },
{
    let lower = to_lowercase(sub_key);
    let lower_chars = chars_of(lower.as_str());
    let suffix = chars_of(".exe");
    if ends_with_chars(lower_chars.as_slice(), suffix.as_slice()) {
        Some(lower)
    } else {
        None
    }
}

/// Harper's own process, the web view hosting it, and Windows' shell, search,
/// input, frame and settings hosts own windows but are not applications a user
/// would enable: they are never offered, whatever is running or registered.
pub proof fn lemma_system_executables_are_never_offered(
    running: Seq<Seq<char>>,
    registered: Seq<Seq<char>>,
    x: Seq<char>,
)
    requires
        x == "harper-desktop.exe"@
            || x == "msedgewebview2.exe"@
            || x == "explorer.exe"@
            || x == "searchhost.exe"@
            || x == "textinputhost.exe"@
            || x == "applicationframehost.exe"@
            || x == "shellexperiencehost.exe"@
            || x == "startmenuexperiencehost.exe"@
            || x == "systemsettings.exe"@,
    ensures
        noise().contains(x),
        !discovered(running, registered).contains(x),
{
    assert(noise()[0] == "harper-desktop.exe"@);
    assert(noise()[1] == "msedgewebview2.exe"@);
    assert(noise()[2] == "explorer.exe"@);
    assert(noise()[3] == "searchhost.exe"@);
    assert(noise()[4] == "textinputhost.exe"@);
    assert(noise()[5] == "applicationframehost.exe"@);
    assert(noise()[6] == "shellexperiencehost.exe"@);
    assert(noise()[7] == "startmenuexperiencehost.exe"@);
    assert(noise()[8] == "systemsettings.exe"@);
}

/// Every other executable that is running, registered or curated is offered:
/// nothing but the system executables is filtered out.
pub proof fn lemma_other_executables_are_offered(
    running: Seq<Seq<char>>,
    registered: Seq<Seq<char>>,
    x: Seq<char>,
)
    requires
        running.contains(x) || registered.contains(x) || curated_executables().contains(x),
        x != "harper-desktop.exe"@,
        x != "msedgewebview2.exe"@,
        x != "explorer.exe"@,
        x != "searchhost.exe"@,
        x != "textinputhost.exe"@,
        x != "applicationframehost.exe"@,
        x != "shellexperiencehost.exe"@,
        x != "startmenuexperiencehost.exe"@,
        x != "systemsettings.exe"@,
    ensures
        !noise().contains(x),
        discovered(running, registered).contains(x),
{
    assert(noise()[0] == "harper-desktop.exe"@);
    assert(noise()[1] == "msedgewebview2.exe"@);
    assert(noise()[2] == "explorer.exe"@);
    assert(noise()[3] == "searchhost.exe"@);
    assert(noise()[4] == "textinputhost.exe"@);
    assert(noise()[5] == "applicationframehost.exe"@);
    assert(noise()[6] == "shellexperiencehost.exe"@);
    assert(noise()[7] == "startmenuexperiencehost.exe"@);
    assert(noise()[8] == "systemsettings.exe"@);
    assert(noise().len() == 9);
    if noise().contains(x) {
        let i = choose|i: int| 0 <= i < noise().len() && noise()[i] == x;
        assert(false);
    }
    if running.contains(x) {
        let i = choose|i: int| 0 <= i < running.len() && running[i] == x;
        assert(running.to_set().contains(x));
    } else if registered.contains(x) {
        let i = choose|i: int| 0 <= i < registered.len() && registered[i] == x;
        assert(registered.to_set().contains(x));
    } else {
        let i = choose|i: int| 0 <= i < curated_executables().len() && curated_executables()[i] == x;
        assert(curated_executables().to_set().contains(x));
    }
}

} // verus!
