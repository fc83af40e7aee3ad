//! Platform-neutral decisions of the operating-system brokers.
//!
//! A broker supplies the highlighter with what only the platform knows: lint
//! rectangles, the cursor, permissions, and the applications a user can
//! enable. The Windows broker is backed by UI Automation; reading the screen
//! and the registry is left to the caller, while every decision about what
//! was read is made here.
use vstd::prelude::*;
use std::sync::{Arc, Mutex};
use vstd::string::StringExecFns;
use crate::app_search::{discover_executables, discovered};
use crate::display_name::{display_name, integration_display_name};
use crate::integration::{Integration, Platform};
use crate::offsets::{is_offset_table, lemma_table_lookup_matches_conversion, lemma_utf16_len_prefix_le, lemma_utf16_len_prefix_strict, utf16_offset, utf16_offset_table, utf16_range};
use crate::order::{chars_less, lemma_less_irreflexive, lemma_less_total, lemma_less_transitive, string_less, strictly_sorted, views};
use crate::text::{utf16_len, decimal, decimal_digits, chars_of, contains_chars, contains_seq, lowercase, to_lowercase, trim, trimmed};

verus! {

/// `std::sync::Mutex`, held opaquely: the allowlist it guards is shared with
/// the configuration refresh and read by the caller.
#[verifier::external_type_specification]
#[verifier::external_body]
#[verifier::reject_recursive_types(T)]
pub struct ExMutex<T: ?Sized>(Mutex<T>);

/// `Mutex::new` wraps `t`; what it holds is not stated.
pub assume_specification<T>[ Mutex::<T>::new ](t: T) -> Mutex<T>;

/// Whether the user has granted the accessibility access the highlighter needs.
#[derive(Debug, Clone, Copy, PartialEq, Eq, Structural)]
pub enum AccessibilityPermissionStatus {
    Granted,
    NotGranted,
    Unsupported,
}

/// UI Automation-backed broker.
///
/// Windows requires no equivalent of the macOS accessibility grant, so
/// permission is always reported as granted.
pub struct WindowsBroker {
    /// Per-app allowlist, keyed by lowercase foreground executable name. The
    /// highlighter's config refresh writes into this same shared list, so
    /// settings toggles take effect without restarting the broker.
    integrations: Arc<Mutex<Vec<Integration>>>,
}

impl WindowsBroker {
    /// The allowlist this broker reads.
    pub closed spec fn shared_integrations(&self) -> Arc<Mutex<Vec<Integration>>> {
        self.integrations
    }

    /// A broker that reads its allowlist from `integrations`.
    pub fn new(integrations: Arc<Mutex<Vec<Integration>>>) -> (broker: Self)
        ensures
            broker.shared_integrations() == integrations,
    {
        WindowsBroker { integrations }
    }

    /// The shared allowlist, for the caller that checks the foreground
    /// application against it.
    pub fn integrations(&self) -> (integrations: &Arc<Mutex<Vec<Integration>>>)
        ensures
            *integrations == self.shared_integrations(),
    {
        &self.integrations
    }

    /// Windows needs no accessibility grant: always [`Granted`](AccessibilityPermissionStatus::Granted).
    pub fn accessibility_permission_status(&self) -> (status: AccessibilityPermissionStatus)
        ensures
            status == AccessibilityPermissionStatus::Granted,
    {
        AccessibilityPermissionStatus::Granted
    }

    /// The friendly name of the application `bundle_id`.
    pub fn system_integration_display_name(&self, bundle_id: &str) -> (name: String)
        ensures
            name@ == display_name(bundle_id@),
    {
        integration_display_name(bundle_id)
    }

    /// The name an integration is shown under in settings.
    pub fn integration_display_name(&self, bundle_id: &str) -> (name: String)
        ensures
            name@ == display_name(bundle_id@),
    {
        self.system_integration_display_name(bundle_id)
    }

    /// Applications matching `query`, for the settings "Add application…"
    /// flow, given the executables that own visible windows (`running`) and
    /// those registered under the `App Paths` keys (`registered`).
    ///
    /// The query is trimmed and lowercased; an empty one matches everything,
    /// otherwise it must occur in the lowercased friendly name or in the
    /// executable name. Results are ordered by name.
    pub fn search_apps(&self, query: &str, running: &[String], registered: &[String]) -> (results:
        Result<Vec<AppSearchResult>, String>)
        ensures
            match results {
                Ok(found) => search_results_for(
                    found@,
                    search_needle(query@),
                    discovered(views(running@), views(registered@)),
                ),
                Err(_) => false,
            },
    {
        let needle_text = to_lowercase(trim(query));
        let needle = chars_of(needle_text.as_str());
        let ghost needle_view = search_needle(query@);
        let executables = discover_executables(running, registered);
        let ghost ids = views(executables@);
        let mut results: Vec<AppSearchResult> = Vec::new();
        let mut i: usize = 0;
        while i < executables.len()
            invariant
                i <= executables@.len(),
                ids == views(executables@),
                strictly_sorted(ids),
                needle@ == needle_view,
                forall|k: int|
                    0 <= k < results@.len() ==> {
                        let id = (#[trigger] results@[k]).bundle_id@;
                        &&& listed_before(ids, i as int, id)
                        &&& results@[k].name@ == display_name(id)
                        &&& app_matches(needle_view, display_name(id), id)
                    },
                forall|j: int|
                    0 <= j < i && app_matches(needle_view, display_name(ids[j]), #[trigger] ids[j])
                        ==> exists|k: int| 0 <= k < results@.len() && (#[trigger] results@[k]).bundle_id@ == ids[j],
                forall|a: int, b: int|
                    0 <= a < b < results@.len() ==> key_less(
                        result_key(#[trigger] results@[a]),
                        result_key(#[trigger] results@[b]),
                    ),
            decreases executables@.len() - i,
        {
            let executable = &executables[i];
            let name = integration_display_name(executable.as_str());
            let lowered = to_lowercase(name.as_str());
            let lowered_chars = chars_of(lowered.as_str());
            let executable_chars = chars_of(executable.as_str());
            let matches = needle.len() == 0 || contains_chars(lowered_chars.as_slice(), needle.as_slice())
                || contains_chars(executable_chars.as_slice(), needle.as_slice());
            let ghost before = results@;
            proof {
                assert forall|k: int| 0 <= k < before.len() implies listed_before(ids, i + 1, (#[trigger] before[k]).bundle_id@) by {
                    lemma_listed_grows(ids, i as int, before[k].bundle_id@);
                }
            }
            if matches {
                proof {
                    assert forall|k: int| 0 <= k < before.len() implies (#[trigger] before[k]).bundle_id@ != ids[i as int] by {
                        let j = choose|j: int| 0 <= j < i && ids[j] == before[k].bundle_id@;
                        assert(chars_less(ids[j], ids[i as int]));
                        lemma_less_irreflexive(ids[i as int]);
                    }
                }
                let result = AppSearchResult { name, bundle_id: executable.clone() };
                insert_result(&mut results, result);
                proof {
                    let p = choose|p: int| 0 <= p <= before.len() && results@ == before.insert(p, result);
                    assert forall|k: int| 0 <= k < results@.len() implies {
                        let id = (#[trigger] results@[k]).bundle_id@;
                        &&& listed_before(ids, i + 1, id)
                        &&& results@[k].name@ == display_name(id)
                        &&& app_matches(needle_view, display_name(id), id)
                    } by {
                        if k < p {
                            assert(results@[k] == before[k]);
                            lemma_listed_grows(ids, i as int, before[k].bundle_id@);
                        } else if k > p {
                            assert(results@[k] == before[k - 1]);
                            lemma_listed_grows(ids, i as int, before[k - 1].bundle_id@);
                        } else {
                            assert(ids[i as int] == results@[k].bundle_id@);
                        }
                    }
                    assert forall|j: int|
                        0 <= j < i + 1 && app_matches(needle_view, display_name(ids[j]), #[trigger] ids[j])
                            implies exists|k: int| 0 <= k < results@.len() && (#[trigger] results@[k]).bundle_id@ == ids[j] by {
                        if j == i {
                            assert(results@[p].bundle_id@ == ids[j]);
                        } else {
                            let k = choose|k: int| 0 <= k < before.len() && (#[trigger] before[k]).bundle_id@ == ids[j];
                            if k < p {
                                assert(results@[k] == before[k]);
                            } else {
                                assert(results@[k + 1] == before[k]);
                            }
                        }
                    }
                }
            }
            i = i + 1;
        }
        proof {
            let candidates = discovered(views(running@), views(registered@));
            assert(ids.to_set() == candidates);
            assert forall|id: Seq<char>|
                #![trigger candidates.contains(id)]
                candidates.contains(id) && app_matches(needle_view, display_name(id), id) implies exists|k: int|
                    0 <= k < results@.len() && (#[trigger] results@[k]).bundle_id@ == id by {
                assert(ids.to_set().contains(id));
                let j = choose|j: int| 0 <= j < ids.len() && ids[j] == id;
                assert(app_matches(needle_view, display_name(ids[j]), ids[j]));
            }
            assert forall|k: int| 0 <= k < results@.len() implies candidates.contains(
                (#[trigger] results@[k]).bundle_id@,
            ) by {
                let j = choose|j: int| 0 <= j < i && ids[j] == results@[k].bundle_id@;
                assert(ids.to_set().contains(ids[j]));
            }
        }
        Ok(results)
    }

    /// The integrations as the settings page lists them, in order, each
    /// under its friendly name.
    pub fn integration_views(&self, integrations: &[Integration]) -> (views: Vec<IntegrationView>)
        ensures
            lists_integrations(views@, integrations@, |id: Seq<char>| display_name(id)),
    {
        let mut views: Vec<IntegrationView> = Vec::new();
        let mut i: usize = 0;
        while i < integrations.len()
            invariant
                i <= integrations@.len(),
                lists_integrations(views@, integrations@.take(i as int), |id: Seq<char>| display_name(id)),
            decreases integrations@.len() - i,
        {
            let integration = &integrations[i];
            let display_name = self.integration_display_name(integration.bundle_id.as_str());
            views.push(IntegrationView {
                bundle_id: integration.bundle_id.clone(),
                enabled: integration.enabled,
                display_name,
            });
            i = i + 1;
        }
        assert(integrations@.take(i as int) =~= integrations@);
        views
    }

    /// Listing installed applications by bundle identifier is only supported
    /// on macOS.
    pub fn installed_application_bundle_ids(&self) -> (ids: Result<Vec<String>, String>)
        ensures
            ids matches Err(message) && message@ == "Listing installed application bundle IDs is only supported on macOS."@,
    {
        Err("Listing installed application bundle IDs is only supported on macOS.".to_owned())
    }

    /// Reading application icons by bundle identifier is only supported on
    /// macOS.
    pub fn application_icon_png(&self, bundle_id: &str) -> (png: Result<Vec<u8>, String>)
        ensures
            png matches Err(message) && message@ == "Reading application icons by bundle ID is only supported on macOS."@,
    {
        Err("Reading application icons by bundle ID is only supported on macOS.".to_owned())
    }

    /// Asking for permission changes nothing: the status is reported as is.
    pub fn request_accessibility_permission(&self) -> (status: AccessibilityPermissionStatus)
        ensures
            status == AccessibilityPermissionStatus::Granted,
    {
        self.accessibility_permission_status()
    }
}

impl Default for WindowsBroker {
    /// A broker whose allowlist starts as the curated Windows integrations.
    fn default() -> Self {
        let curated = Integration::curated_integrations(Platform::Windows);
        Self::new(Arc::new(Mutex::new(curated)))
    }
}


/// An integration as the settings page lists it: with the name it is shown
/// under.
#[derive(Debug, Clone)]
pub struct IntegrationView {
    pub bundle_id: String,
    pub enabled: bool,
    pub display_name: String,
}

/// Whether `views` lists `integrations` in order, each named by `name_of`.
pub open spec fn lists_integrations(
    views: Seq<IntegrationView>,
    integrations: Seq<Integration>,
    name_of: spec_fn(Seq<char>) -> Seq<char>,
) -> bool {
    &&& views.len() == integrations.len()
    &&& forall|i: int|
        0 <= i < views.len() ==> {
            &&& (#[trigger] views[i]).bundle_id@ == integrations[i].bundle_id@
            &&& views[i].enabled == integrations[i].enabled
            &&& views[i].display_name@ == name_of(integrations[i].bundle_id@)
        }
}

/// What is known of the focused element's text while the highlights are
/// gathered.
#[derive(Debug, Clone, Copy, PartialEq, Eq, Structural)]
pub enum FocusedText {
    /// Not read yet.
    Unread,
    /// The element would not give its text.
    Unreadable,
    /// Read: this many characters.
    Chars(usize),
}

/// The next step in gathering the highlights for the foreground application.
#[derive(Debug, Clone, Copy, PartialEq, Eq, Structural)]
pub enum ReadStep {
    /// Stop: there is nothing to highlight.
    Stop,
    /// Find out whether the focused element holds editable text.
    InspectFocus,
    /// Read the focused element's text.
    ReadText,
    /// Lint the text that was read.
    Lint,
}

/// The step that follows from what is known: whether the foreground
/// application is `enabled` in the allowlist, whether its focused element
/// holds editable text (`None` until inspected), and its text.
pub open spec fn read_step(enabled: bool, editable: Option<bool>, text: FocusedText) -> ReadStep {
    if !enabled {
        ReadStep::Stop
    } else {
        match editable {
            None => ReadStep::InspectFocus,
            Some(false) => ReadStep::Stop,
            Some(true) => match text {
                FocusedText::Unread => ReadStep::ReadText,
                FocusedText::Unreadable => ReadStep::Stop,
                FocusedText::Chars(n) => if n == 0 {
                    ReadStep::Stop
                } else {
                    ReadStep::Lint
                },
            },
        }
    }
}

/// The next step in gathering the highlights, given what is known so far.
///
/// Applications the user has not enabled produce no highlights at all: their
/// focused element is not inspected, and their text is neither read nor
/// linted. Text that is not editable, cannot be read, or is empty is not
/// linted either.
pub fn next_read_step(enabled: bool, editable: Option<bool>, text: FocusedText) -> (step: ReadStep)
    ensures
        step == read_step(enabled, editable, text),
{
    if !enabled {
        return ReadStep::Stop;
    }
    match editable {
        None => ReadStep::InspectFocus,
        Some(false) => ReadStep::Stop,
        Some(true) => match text {
            FocusedText::Unread => ReadStep::ReadText,
            FocusedText::Unreadable => ReadStep::Stop,
            FocusedText::Chars(n) => if n == 0 {
                ReadStep::Stop
            } else {
                ReadStep::Lint
            },
        },
    }
}

/// No text of an application the user has not enabled reaches the linter:
/// its focus is inspected, and its text read, only when it is enabled, and
/// text is linted only when it is enabled, editable and not empty.
pub proof fn lemma_disabled_text_is_never_read(enabled: bool, editable: Option<bool>, text: FocusedText)
    ensures
        read_step(enabled, editable, text) != ReadStep::Stop ==> enabled,
        read_step(enabled, editable, text) == ReadStep::ReadText ==> editable == Some(true),
        read_step(enabled, editable, text) == ReadStep::Lint ==> (editable == Some(true)
            && (text matches FocusedText::Chars(n) && n > 0)),
{
}

/// The UTF-16 range to highlight for the lint span `[start, end)` of `text`,
/// or `None` when it is empty or reversed.
pub open spec fn span_range(text: Seq<char>, start: usize, end: usize) -> Option<(i32, i32)> {
    let from = utf16_offset(text, start as int) as i32;
    let to = utf16_offset(text, end as int) as i32;
    if from < to {
        Some((from, to))
    } else {
        None
    }
}

/// The highlights planned for the lint spans `spans` of `text`: each span that
/// has something to highlight, with its index and UTF-16 range, in order.
pub open spec fn planned_ranges(text: Seq<char>, spans: Seq<(usize, usize)>) -> Seq<(usize, i32, i32)>
    decreases spans.len(),
{
    if spans.len() == 0 {
        seq![]
    } else {
        let index = (spans.len() - 1) as usize;
        planned_ranges(text, spans.drop_last()) + match span_range(text, spans.last().0, spans.last().1) {
            Some((from, to)) => seq![(index, from, to)],
            None => seq![],
        }
    }
}

/// The UTF-16 units before character `n` of `text`, an offset past the end
/// standing for the end.
pub open spec fn units_before(text: Seq<char>, n: int) -> nat {
    utf16_len(text.take(if n < text.len() { n } else { text.len() as int }))
}

proof fn lemma_units_before(text: Seq<char>, n: int)
    requires
        n >= 0,
        utf16_len(text) <= i32::MAX,
    ensures
        utf16_offset(text, n) == units_before(text, n),
        units_before(text, n) <= i32::MAX,
{
    if n < text.len() {
        lemma_utf16_len_prefix_le(text, n);
    } else {
        assert(text.take(text.len() as int) =~= text);
    }
}

/// Every lint span whose characters take up some UTF-16 units is highlighted
/// over exactly those units: only an empty or reversed range is dropped, and a
/// span reaching past the end of the text is cut at the end.
pub proof fn lemma_every_visible_span_is_planned(text: Seq<char>, spans: Seq<(usize, usize)>, i: int)
    requires
        utf16_len(text) <= i32::MAX,
        0 <= i < spans.len(),
        units_before(text, spans[i].0 as int) < units_before(text, spans[i].1 as int),
    ensures
        planned_ranges(text, spans).contains(
            (
                i as usize,
                units_before(text, spans[i].0 as int) as i32,
                units_before(text, spans[i].1 as int) as i32,
            ),
        ),
    decreases spans.len(),
{
    let n = spans.len() - 1;
    let prev = planned_ranges(text, spans.drop_last());
    let (s, e) = spans.last();
    lemma_units_before(text, s as int);
    lemma_units_before(text, e as int);
    let tail = match span_range(text, s, e) {
        Some((from, to)) => seq![(n as usize, from, to)],
        None => Seq::<(usize, i32, i32)>::empty(),
    };
    assert(planned_ranges(text, spans) == prev + tail);
    if i == n {
        let entry = (i as usize, units_before(text, s as int) as i32, units_before(text, e as int) as i32);
        assert((prev + tail)[prev.len() as int] == entry);
    } else {
        assert(spans.drop_last()[i] == spans[i]);
        lemma_every_visible_span_is_planned(text, spans.drop_last(), i);
        let j = choose|j: int| 0 <= j < prev.len() && prev[j] == (
            i as usize,
            units_before(text, spans[i].0 as int) as i32,
            units_before(text, spans[i].1 as int) as i32,
        );
        assert((prev + tail)[j] == prev[j]);
    }
}

/// A lint span of characters inside the text is highlighted at the UTF-16
/// units its characters occupy: `[s, e)` with `s < e <= text.len()` is drawn
/// from the units before character `s` to the units before character `e`,
/// a span ending at the end of the text included.
pub proof fn lemma_span_inside_text_is_planned(text: Seq<char>, spans: Seq<(usize, usize)>, i: int)
    requires
        utf16_len(text) <= i32::MAX,
        0 <= i < spans.len(),
        spans[i].0 < spans[i].1 <= text.len(),
    ensures
        planned_ranges(text, spans).contains(
            (
                i as usize,
                utf16_len(text.take(spans[i].0 as int)) as i32,
                utf16_len(text.take(spans[i].1 as int)) as i32,
            ),
        ),
{
    lemma_utf16_len_prefix_strict(text, spans[i].0 as int, spans[i].1 as int);
    lemma_every_visible_span_is_planned(text, spans, i);
}

/// Every planned highlight belongs to a lint span and covers exactly that
/// span's UTF-16 units, which are never empty or reversed.
pub proof fn lemma_planned_highlights_match_their_spans(text: Seq<char>, spans: Seq<(usize, usize)>, j: int)
    requires
        utf16_len(text) <= i32::MAX,
        spans.len() <= usize::MAX,
        0 <= j < planned_ranges(text, spans).len(),
    ensures
        ({
            let (k, from, to) = planned_ranges(text, spans)[j];
            &&& k < spans.len()
            &&& from == units_before(text, spans[k as int].0 as int) as i32
            &&& to == units_before(text, spans[k as int].1 as int) as i32
            &&& from < to
        }),
    decreases spans.len(),
{
    let n = spans.len() - 1;
    let prev = planned_ranges(text, spans.drop_last());
    let (s, e) = spans.last();
    lemma_units_before(text, s as int);
    lemma_units_before(text, e as int);
    let tail = match span_range(text, s, e) {
        Some((from, to)) => seq![(n as usize, from, to)],
        None => Seq::<(usize, i32, i32)>::empty(),
    };
    assert(planned_ranges(text, spans) == prev + tail);
    if j < prev.len() {
        lemma_planned_highlights_match_their_spans(text, spans.drop_last(), j);
        let (k, from, to) = prev[j];
        assert(spans.drop_last()[k as int] == spans[k as int]);
        assert((prev + tail)[j] == prev[j]);
    } else {
        assert((prev + tail)[j] == tail[0]);
    }
}

/// The highlights to draw for the focused text `text` of an application
/// that is `enabled` in the allowlist, whose lints cover the char spans
/// `spans`: each span with something to highlight, by index and UTF-16 range.
///
/// An application the user has not enabled, and an empty text, get no
/// highlights at all.
pub fn highlight_plan(enabled: bool, text: &str, spans: &[(usize, usize)]) -> (plan: Vec<(usize, i32, i32)>)
    requires
        utf16_len(text@) <= i32::MAX,
    ensures
        plan@ == if !enabled || text@.len() == 0 {
            seq![]
        } else {
            planned_ranges(text@, spans@)
        },
        enabled && text@.len() > 0 ==> forall|i: int|
            0 <= i < spans@.len() && units_before(text@, spans@[i].0 as int) < units_before(
                text@,
                spans@[i].1 as int,
            ) ==> plan@.contains(
                (
                    i as usize,
                    units_before(text@, #[trigger] spans@[i].0 as int) as i32,
                    units_before(text@, spans@[i].1 as int) as i32,
                ),
            ),
        enabled && text@.len() > 0 ==> forall|i: int|
            0 <= i < spans@.len() && spans@[i].0 < spans@[i].1 <= text@.len() ==> plan@.contains(
                (
                    i as usize,
                    utf16_len(text@.take(#[trigger] spans@[i].0 as int)) as i32,
                    utf16_len(text@.take(spans@[i].1 as int)) as i32,
                ),
            ),
        forall|j: int|
            0 <= j < plan@.len() ==> ({
                let (k, from, to) = #[trigger] plan@[j];
                &&& k < spans@.len()
                &&& from == units_before(text@, spans@[k as int].0 as int) as i32
                &&& to == units_before(text@, spans@[k as int].1 as int) as i32
                &&& from < to
            }),
{
    let mut plan: Vec<(usize, i32, i32)> = Vec::new();
    if !enabled || text.is_empty() {
        assert(plan@ =~= seq![]);
        return plan;
    }
    let table = utf16_offset_table(text);
    let mut i: usize = 0;
    assert(spans@.take(0) =~= Seq::<(usize, usize)>::empty());
    while i < spans.len()
        invariant
            i <= spans@.len(),
            is_offset_table(table@, text@),
            utf16_len(text@) <= i32::MAX,
            plan@ == planned_ranges(text@, spans@.take(i as int)),
        decreases spans@.len() - i,
    {
        let (start, end) = spans[i];
        proof {
            lemma_table_lookup_matches_conversion(text@, table@, start as int);
            lemma_table_lookup_matches_conversion(text@, table@, end as int);
            assert(spans@.take(i + 1).drop_last() =~= spans@.take(i as int));
            assert(spans@.take(i + 1).last() == spans@[i as int]);
        }
        let range = utf16_range(table.as_slice(), start, end);
        if let Some((from, to)) = range {
            plan.push((i, from, to));
        }
        proof {
            let tail = match span_range(text@, start, end) {
                Some((from, to)) => seq![(i, from, to)],
                None => seq![],
            };
            assert(plan@ =~= planned_ranges(text@, spans@.take(i as int)) + tail);
        }
        i = i + 1;
    }
    assert(spans@.take(i as int) =~= spans@);
    proof {
        assert forall|k: int|
            0 <= k < spans@.len() && units_before(text@, spans@[k].0 as int) < units_before(
                text@,
                spans@[k].1 as int,
            ) implies plan@.contains(
            (
                k as usize,
                units_before(text@, #[trigger] spans@[k].0 as int) as i32,
                units_before(text@, spans@[k].1 as int) as i32,
            ),
        ) by {
            lemma_every_visible_span_is_planned(text@, spans@, k);
        }
        assert forall|k: int|
            0 <= k < spans@.len() && spans@[k].0 < spans@[k].1 <= text@.len() implies plan@.contains(
            (
                k as usize,
                utf16_len(text@.take(#[trigger] spans@[k].0 as int)) as i32,
                utf16_len(text@.take(spans@[k].1 as int)) as i32,
            ),
        ) by {
            lemma_span_inside_text_is_planned(text@, spans@, k);
        }
        assert forall|j: int| 0 <= j < plan@.len() implies ({
            let (k, from, to) = #[trigger] plan@[j];
            &&& k < spans@.len()
            &&& from == units_before(text@, spans@[k as int].0 as int) as i32
            &&& to == units_before(text@, spans@[k as int].1 as int) as i32
            &&& from < to
        }) by {
            lemma_planned_highlights_match_their_spans(text@, spans@, j);
        }
    }
    plan
}

/// An application offered by the settings search: its friendly name and the
/// identifier an integration is keyed by.
#[derive(Debug, Clone)]
pub struct AppSearchResult {
    pub name: String,
    pub bundle_id: String,
}

/// The characters of a search result's name and identifier.
pub open spec fn result_key(result: AppSearchResult) -> (Seq<char>, Seq<char>) {
    (result.name@, result.bundle_id@)
}

/// Order of search results: by name, then by identifier.
pub open spec fn key_less(a: (Seq<char>, Seq<char>), b: (Seq<char>, Seq<char>)) -> bool {
    chars_less(a.0, b.0) || (a.0 == b.0 && chars_less(a.1, b.1))
}

/// Whether the application `executable`, named `name`, matches the lowercase
/// query `needle`: an empty needle matches everything, otherwise the needle
/// must occur in the lowercased name or in the executable name.
pub open spec fn app_matches(needle: Seq<char>, name: Seq<char>, executable: Seq<char>) -> bool {
    needle.len() == 0 || contains_seq(lowercase(name), needle) || contains_seq(executable, needle)
}

/// The lowercase needle a search query is matched by.
pub open spec fn search_needle(query: Seq<char>) -> Seq<char> {
    lowercase(trimmed(query))
}

/// Whether `id` is among the first `n` identifiers of `ids`.
pub open spec fn listed_before(ids: Seq<Seq<char>>, n: int, id: Seq<char>) -> bool {
    exists|j: int| 0 <= j < n && ids[j] == id
}

proof fn lemma_listed_grows(ids: Seq<Seq<char>>, n: int, id: Seq<char>)
    requires
        listed_before(ids, n, id),
    ensures
        listed_before(ids, n + 1, id),
{
    let j = choose|j: int| 0 <= j < n && ids[j] == id;
    assert(0 <= j < n + 1 && ids[j] == id);
}

/// Whether `results` is exactly the search result list for `needle` over the
/// applications `candidates`: one entry per matching candidate, named by its
/// friendly name, ordered by name and then identifier (the order a stable sort
/// by name leaves identifiers that arrive sorted in).
pub open spec fn search_results_for(
    results: Seq<AppSearchResult>,
    needle: Seq<char>,
    candidates: Set<Seq<char>>,
) -> bool {
    &&& forall|i: int|
        0 <= i < results.len() ==> {
            let id = (#[trigger] results[i]).bundle_id@;
            &&& candidates.contains(id)
            &&& results[i].name@ == display_name(id)
            &&& app_matches(needle, display_name(id), id)
        }
    &&& forall|id: Seq<char>|
        #![trigger candidates.contains(id)]
        candidates.contains(id) && app_matches(needle, display_name(id), id) ==> exists|i: int|
            0 <= i < results.len() && (#[trigger] results[i]).bundle_id@ == id
    &&& forall|i: int, j: int|
        0 <= i < j < results.len() ==> key_less(
            result_key(#[trigger] results[i]),
            result_key(#[trigger] results[j]),
        )
}

/// An empty query lists every candidate application: with no needle, each
/// candidate appears in the results, under its friendly name.
pub proof fn lemma_empty_query_lists_everything(
    results: Seq<AppSearchResult>,
    candidates: Set<Seq<char>>,
    id: Seq<char>,
)
    requires
        search_results_for(results, seq![], candidates),
        candidates.contains(id),
    ensures
        exists|i: int|
            0 <= i < results.len() && (#[trigger] results[i]).bundle_id@ == id && results[i].name@
                == display_name(id),
{
    assert(app_matches(seq![], display_name(id), id));
    let i = choose|i: int| 0 <= i < results.len() && (#[trigger] results[i]).bundle_id@ == id;
    assert(results[i].name@ == display_name(id));
}

proof fn lemma_key_transitive(a: (Seq<char>, Seq<char>), b: (Seq<char>, Seq<char>), c: (Seq<char>, Seq<char>))
    requires
        key_less(a, b),
        key_less(b, c),
    ensures
        key_less(a, c),
{
    if chars_less(a.0, b.0) && chars_less(b.0, c.0) {
        lemma_less_transitive(a.0, b.0, c.0);
    } else if chars_less(a.0, b.0) {
    } else if chars_less(b.0, c.0) {
    } else {
        lemma_less_transitive(a.1, b.1, c.1);
    }
}

proof fn lemma_key_total(a: (Seq<char>, Seq<char>), b: (Seq<char>, Seq<char>))
    requires
        a.1 != b.1,
    ensures
        key_less(a, b) || key_less(b, a),
{
    lemma_less_total(a.0, b.0);
    lemma_less_total(a.1, b.1);
}

/// Whether result `a` orders before result `b`.
fn result_less(a: &AppSearchResult, b: &AppSearchResult) -> (less: bool)
    ensures
        less == key_less(result_key(*a), result_key(*b)),
{
    if string_less(a.name.as_str(), b.name.as_str()) {
        true
    } else if crate::text::str_equal(a.name.as_str(), b.name.as_str()) {
        string_less(a.bundle_id.as_str(), b.bundle_id.as_str())
    } else {
        false
    }
}

/// Inserts `result` into `results`, keeping them ordered by name and then
/// identifier; `result`'s identifier is new.
fn insert_result(results: &mut Vec<AppSearchResult>, result: AppSearchResult)
    requires
        forall|i: int, j: int|
            0 <= i < j < old(results)@.len() ==> key_less(
                result_key(#[trigger] old(results)@[i]),
                result_key(#[trigger] old(results)@[j]),
            ),
        forall|i: int| 0 <= i < old(results)@.len() ==> (#[trigger] old(results)@[i]).bundle_id@ != result.bundle_id@,
    ensures
        forall|i: int, j: int|
            0 <= i < j < final(results)@.len() ==> key_less(
                result_key(#[trigger] final(results)@[i]),
                result_key(#[trigger] final(results)@[j]),
            ),
        exists|p: int| 0 <= p <= old(results)@.len() && final(results)@ == old(results)@.insert(p, result),
{
    let ghost before = results@;
    let mut position: usize = 0;
    while position < results.len() && result_less(&results[position], &result)
        invariant
            position <= results@.len(),
            results@ == before,
            forall|j: int| 0 <= j < position ==> key_less(result_key(#[trigger] results@[j]), result_key(result)),
        decreases results@.len() - position,
    {
        position = position + 1;
    }
    proof {
        if position < before.len() {
            lemma_key_total(result_key(before[position as int]), result_key(result));
        }
    }
    results.insert(position, result);
    proof {
        let after = results@;
        let k = result_key(result);
        assert forall|i: int, j: int| 0 <= i < j < after.len() implies key_less(
            result_key(#[trigger] after[i]),
            result_key(#[trigger] after[j]),
        ) by {
            if j < position {
            } else if i < position && j == position {
            } else if i < position {
                if position < before.len() {
                    lemma_key_transitive(result_key(before[i]), k, result_key(before[position as int]));
                    if j - 1 > position {
                        lemma_key_transitive(result_key(before[i]), result_key(before[position as int]), result_key(before[j - 1]));
                    }
                }
            } else if i == position {
                if j - 1 > position {
                    lemma_key_transitive(k, result_key(before[position as int]), result_key(before[j - 1]));
                }
            } else {
                assert(key_less(result_key(before[i - 1]), result_key(before[j - 1])));
            }
        }
    }
}

/// Broker for platforms that have no native one: no accessibility or cursor
/// integration at all.
#[derive(Default)]
pub struct NoopBroker;

impl NoopBroker {
    /// Without a native broker there is no permission to grant.
    pub fn accessibility_permission_status(&self) -> (status: AccessibilityPermissionStatus)
        ensures
            status == AccessibilityPermissionStatus::Unsupported,
    {
        AccessibilityPermissionStatus::Unsupported
    }

    /// Asking for permission changes nothing: the status is reported as is.
    pub fn request_accessibility_permission(&self) -> (status: AccessibilityPermissionStatus)
        ensures
            status == AccessibilityPermissionStatus::Unsupported,
    {
        self.accessibility_permission_status()
    }

    /// Without a native broker an integration is shown under its identifier.
    pub fn system_integration_display_name(&self, bundle_id: &str) -> (name: String)
        ensures
            name@ == bundle_id@,
    {
        bundle_id.to_owned()
    }

    /// The name an integration is shown under in settings: its identifier.
    pub fn integration_display_name(&self, bundle_id: &str) -> (name: String)
        ensures
            name@ == bundle_id@,
    {
        self.system_integration_display_name(bundle_id)
    }

    /// Listing installed applications is only supported on macOS.
    pub fn installed_application_bundle_ids(&self) -> (ids: Result<Vec<String>, String>)
        ensures
            ids matches Err(message) && message@ == "Listing installed application bundle IDs is only supported on macOS."@,
    {
        Err("Listing installed application bundle IDs is only supported on macOS.".to_owned())
    }

    /// Reading application icons is only supported on macOS.
    pub fn application_icon_png(&self, bundle_id: &str) -> (png: Result<Vec<u8>, String>)
        ensures
            png matches Err(message) && message@ == "Reading application icons by bundle ID is only supported on macOS."@,
    {
        Err("Reading application icons by bundle ID is only supported on macOS.".to_owned())
    }

    /// Launching applications is only supported on macOS.
    pub fn launch_app_bundle(&self, bundle_id: &str) -> (launched: Result<(), String>)
        ensures
            launched matches Err(message) && message@ == "Launching apps by bundle ID is only supported on macOS."@,
    {
        Err("Launching apps by bundle ID is only supported on macOS.".to_owned())
    }

    /// Application search is only supported on macOS.
    pub fn search_apps(&self, query: &str) -> (results: Result<Vec<AppSearchResult>, String>)
        ensures
            results matches Err(message) && message@ == "App search is only supported on macOS."@,
    {
        Err("App search is only supported on macOS.".to_owned())
    }
}

/// The UI Automation control type of an edit control.
pub const EDIT_CONTROL_TYPE: i32 = 50004;

/// The UI Automation control type of a document control.
pub const DOCUMENT_CONTROL_TYPE: i32 = 50030;

/// Whether a focused element of `control_type` whose value pattern reports
/// `read_only` holds text worth linting.
///
/// Chat sidebars, message history and list entries expose text too, but
/// flagging text the user cannot change is noise: only edit and document
/// controls qualify, and not when they are read-only.
pub fn is_editable_text_element(control_type: i32, read_only: bool) -> (editable: bool)
    ensures
        editable == ((control_type == EDIT_CONTROL_TYPE || control_type == DOCUMENT_CONTROL_TYPE)
            && !read_only),
{
    (control_type == EDIT_CONTROL_TYPE || control_type == DOCUMENT_CONTROL_TYPE) && !read_only
}

/// Whether `c` separates the components of a Windows path.
pub open spec fn is_path_separator(c: char) -> bool {
    c == '\\' || c == '/'
}

/// The last component of `path`: what follows its last separator, or all of it.
pub open spec fn last_component(path: Seq<char>) -> Seq<char>
    decreases path.len(),
{
    if path.len() == 0 {
        path
    } else if is_path_separator(path.last()) {
        seq![]
    } else {
        last_component(path.drop_last()).push(path.last())
    }
}

/// The last component of `path`.
fn last_path_component(path: &[char]) -> (component: Vec<char>)
    ensures
        component@ == last_component(path@),
{
    let mut component: Vec<char> = Vec::new();
    let mut i: usize = 0;
    assert(path@.take(0) =~= Seq::<char>::empty());
    while i < path.len()
        invariant
            i <= path@.len(),
            component@ == last_component(path@.take(i as int)),
        decreases path@.len() - i,
    {
        assert(path@.take(i + 1).drop_last() =~= path@.take(i as int));
        if path[i] == '\\' || path[i] == '/' {
            component = Vec::new();
        } else {
            component.push(path[i]);
        }
        i = i + 1;
    }
    assert(path@.take(i as int) =~= path@);
    component
}

/// The lowercase executable name of the process image at `full_path`, e.g.
/// `"notepad.exe"` for `C:\\Windows\\notepad.exe`: integrations are keyed by it.
pub fn executable_name_from_path(full_path: &str) -> (name: String)
    ensures
        name@ == lowercase(last_component(full_path@)),
{
    let path = chars_of(full_path);
    let component = last_path_component(path.as_slice());
    let component = crate::text::string_from_chars(component.as_slice());
    to_lowercase(component.as_str())
}

/// The outcome of asking the shell to open `bundle_id`, given the value the
/// shell returned: values greater than 32 indicate success.
pub fn launch_outcome(bundle_id: &str, code: usize) -> (outcome: Result<(), String>)
    ensures
        match outcome {
            Ok(()) => code > 32,
            Err(message) => code <= 32 && message@ == "could not launch "@ + bundle_id@ + " (code "@
                + decimal(code as nat) + ")"@,
        },
{
    if code > 32 {
        Ok(())
    } else {
        let mut message = "could not launch ".to_owned();
        message.append(bundle_id);
        message.append(" (code ");
        let digits = decimal_digits(code);
        let digits = crate::text::string_from_chars(digits.as_slice());
        message.append(digits.as_str());
        message.append(")");
        Err(message)
    }
}

} // verus!
