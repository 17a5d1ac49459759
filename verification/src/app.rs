//! The command dispatcher: the single mutation point of the
//! application. It takes one [`Command`] at a time, keeps the record
//! table, the prompt, the options overlay and the tab state mutually
//! consistent, and hands engine, subprocess and clipboard work to the
//! caller as [`Action`] values whose outcomes come back through the
//! `apply_*` methods.

use vstd::prelude::*;
use vstd::string::*;

use crate::color::ColorValue;
use crate::command::{Action, Command, CopyKind, KeyKind, Mode, OutputKind, ProgramOp, ScrollDirection, Tab};
use crate::container::{CursorList, RecordContainer, Snapshot};
use crate::prompt::Prompt;
use crate::records::{clone_records, recs_of, DetailLevel, Record, RecordData};
use crate::strutil::{bool_str, bool_to_string, dec_str, u64_to_string};

verus! {

/// Cross-cutting interface flags.
pub struct AppState {
    /// The outer loop runs while this is set; only `Quit` clears it.
    pub running: bool,
    /// Whether rows are shown in their shortened form.
    pub minimized: bool,
    /// Below this terminal width the view minimizes itself; zero
    /// disables the automatism.
    pub minimize_threshold: u16,
    /// Whether the interface uses colors.
    pub colored: bool,
    /// The accent color.
    pub color: ColorValue,
    /// Whether the options overlay is on screen.
    pub show_options: bool,
}

/// The engine settings this core decides about; the caller mirrors
/// them into the real engine.
pub struct EngineConfig {
    /// Whether exports are ASCII-armored.
    pub armor: bool,
    /// Where exports are written.
    pub output_dir: String,
    /// The identity used for signing, when one is configured.
    pub default_key: Option<String>,
}

/// One entry of the help list.
pub struct HelpEntry {
    pub name: String,
    pub description: String,
}

/// The aggregate application state, mutated only through
/// [`App::run_command`], the `apply_*` methods and [`App::tick`].
pub struct App {
    pub state: AppState,
    pub mode: Mode,
    pub prompt: Prompt,
    pub tab: Tab,
    pub options: CursorList<Command>,
    pub help_entries: CursorList<HelpEntry>,
    pub public_records: Vec<Record>,
    pub secret_records: Vec<Record>,
    pub records: RecordContainer,
    pub saved_public: Option<Snapshot>,
    pub saved_secret: Option<Snapshot>,
    pub detail_level: DetailLevel,
    pub table_margin: u16,
    pub clipboard_available: bool,
    pub config: EngineConfig,
    /// A message that becomes visible once the work that earned it
    /// (a refresh, a clipboard write) has completed.
    pub staged_output: Option<(OutputKind, String)>,
}

impl OutputKind {
    /// The prefix a message of this kind is shown under.
    pub open spec fn prefix_spec(self) -> Seq<char> {
        match self {
            OutputKind::Neutral => ""@,
            OutputKind::Success => "(i) "@,
            OutputKind::Warning => "(w) "@,
            OutputKind::Failure => "(e) "@,
            OutputKind::Action => "-- "@,
        }
    }

    /// The prefix a message of this kind is shown under.
    pub fn prefix(&self) -> (r: String)
        ensures
            r@ == self.prefix_spec(),
    {
        match *self {
            OutputKind::Neutral => "".to_owned(),
            OutputKind::Success => "(i) ".to_owned(),
            OutputKind::Warning => "(w) ".to_owned(),
            OutputKind::Failure => "(e) ".to_owned(),
            OutputKind::Action => "-- ".to_owned(),
        }
    }
}

/// The identifier of the selected record, when there is one.
pub open spec fn selected_id(c: RecordContainer) -> Option<Seq<char>> {
    match c.cursor {
        Option::Some(i) => Option::Some(c.items@[i as int]@.id),
        Option::None => Option::None,
    }
}

/// The mode the overlay's mode-switch entry jumps to.
pub open spec fn mode_switch_target(mode: Mode) -> Mode {
    if mode == Mode::Visual {
        Mode::Normal
    } else {
        Mode::Visual
    }
}

/// True iff `c` is `set <o> <v>`.
pub open spec fn is_set_cmd(c: Command, o: Seq<char>, v: Seq<char>) -> bool {
    c matches Command::SetOption(co, cv) && co@ == o && cv@ == v
}

/// The overlay entries every view offers, at their fixed positions.
pub open spec fn common_tail_built(
    items: Seq<Command>,
    base: int,
    kind: KeyKind,
    armor: bool,
    margin: u16,
    minimized: bool,
    colored: bool,
    mode: Mode,
) -> bool {
    &&& items[base] matches Command::ExportKeys(k0, ps) && k0 == kind && ps@.len() == 0
    &&& items[base + 1] == Command::GenerateKey
    &&& is_set_cmd(items[base + 2], "armor"@, bool_str(!armor))
    &&& items[base + 3] == Command::Paste
    &&& items[base + 4] == Command::ToggleDetail(true)
    &&& is_set_cmd(
        items[base + 5],
        "margin"@,
        if margin == 1 {
            "0"@
        } else {
            "1"@
        },
    )
    &&& is_set_cmd(items[base + 6], "minimized"@, bool_str(!minimized))
    &&& is_set_cmd(items[base + 7], "colored"@, bool_str(!colored))
    &&& items[base + 8] == Command::SwitchMode(mode_switch_target(mode))
    &&& items[base + 9] == Command::Quit
}

/// What the options overlay holds, as a function of the tab, the
/// selection and the current settings: the same state always yields
/// the same list.
#[verifier::opaque]
pub open spec fn options_built(
    items: Seq<Command>,
    tab: Tab,
    sel: Option<Seq<char>>,
    armor: bool,
    margin: u16,
    minimized: bool,
    colored: bool,
    mode: Mode,
) -> bool {
    match tab {
        Tab::Help => {
            &&& items.len() == 6
            &&& items[0] == Command::Noop
            &&& items[1] == Command::ListKeys(KeyKind::Public)
            &&& items[2] == Command::ListKeys(KeyKind::Secret)
            &&& items[3] == Command::SwitchMode(mode_switch_target(mode))
            &&& items[4] == Command::Refresh
            &&& items[5] == Command::Quit
        },
        Tab::Records(k) => {
            &&& items[0] == Command::Noop
            &&& items[1] == Command::ShowHelp
            &&& items[2] == Command::Refresh
            &&& items[3] == Command::RefreshKeys
            &&& is_set_cmd(items[4], "prompt"@, ":import "@)
            &&& is_set_cmd(items[5], "prompt"@, ":receive "@)
            &&& match sel {
                Option::Some(id) => {
                    &&& items.len() == 28
                    &&& items[6] matches Command::ExportKeys(k1, ps) && k1 == k && ps@.len() == 1
                        && ps@[0]@ == id
                    &&& items[7] matches Command::ExportKeys(k2, ps2) && k2 == k && ps2@.len()
                        == 0
                    &&& items[8] matches Command::Confirm(c8) && ((*c8)
                        matches Command::DeleteKey(k3, id3) && k3 == k && id3@ == id)
                    &&& items[9] matches Command::Confirm(c9) && ((*c9)
                        matches Command::SendKey(id4) && id4@ == id)
                    &&& items[10] matches Command::EditKey(id5) && id5@ == id
                    &&& items[11] matches Command::SignKey(id6) && id6@ == id
                    &&& items[12] == Command::GenerateKey
                    &&& is_set_cmd(items[13], "armor"@, bool_str(!armor))
                    &&& items[14] == Command::CopyText(CopyKind::Key)
                    &&& items[15] == Command::CopyText(CopyKind::KeyId)
                    &&& items[16] == Command::CopyText(CopyKind::KeyFingerprint)
                    &&& items[17] == Command::CopyText(CopyKind::KeyUserId)
                    &&& items[18] == Command::CopyText(CopyKind::TableRow(1))
                    &&& items[19] == Command::CopyText(CopyKind::TableRow(2))
                    &&& items[20] == Command::Paste
                    &&& items[21] == Command::ToggleDetail(false)
                    &&& items[22] == Command::ToggleDetail(true)
                    &&& is_set_cmd(
                        items[23],
                        "margin"@,
                        if margin == 1 {
                            "0"@
                        } else {
                            "1"@
                        },
                    )
                    &&& is_set_cmd(items[24], "minimized"@, bool_str(!minimized))
                    &&& is_set_cmd(items[25], "colored"@, bool_str(!colored))
                    &&& items[26] == Command::SwitchMode(mode_switch_target(mode))
                    &&& items[27] == Command::Quit
                },
                Option::None => {
                    &&& items.len() == 16
                    &&& common_tail_built(items, 6, k, armor, margin, minimized, colored, mode)
                },
            }
        },
    }
}

/// The same tab, selection and settings always describe option lists
/// of the same length: the overlay is a pure function of the state,
/// so opening it twice with nothing changed in between shows the same
/// entries.
pub proof fn lemma_options_deterministic(
    a: Seq<Command>,
    b: Seq<Command>,
    tab: Tab,
    sel: Option<Seq<char>>,
    armor: bool,
    margin: u16,
    minimized: bool,
    colored: bool,
    mode: Mode,
)
    requires
        options_built(a, tab, sel, armor, margin, minimized, colored, mode),
        options_built(b, tab, sel, armor, margin, minimized, colored, mode),
    ensures
        a.len() == b.len(),
        forall|i: int| 0 <= i < a.len() ==> #[trigger] a[i].label_spec() == b[i].label_spec(),
{
    reveal(options_built);
    assert forall|i: int| 0 <= i < a.len() implies #[trigger] a[i].label_spec()
        == b[i].label_spec() by {
        match tab {
            Tab::Help => {
                assert(a.len() == 6);
            },
            Tab::Records(k) => {
                match sel {
                    Option::Some(id) => {
                        assert(a.len() == 28);
                    },
                    Option::None => {
                        assert(a.len() == 16);
                        assert(common_tail_built(a, 6, k, armor, margin, minimized, colored, mode));
                        assert(common_tail_built(b, 6, k, armor, margin, minimized, colored, mode));
                    },
                }
            },
        }
        if i == 8 || i == 9 {
            match (a[i], b[i]) {
                (Command::Confirm(ca), Command::Confirm(cb)) => {
                    match ((*ca), (*cb)) {
                        (Command::DeleteKey(_, _), Command::DeleteKey(_, _)) => {
                            assert((*ca).label_spec() == "delete key"@);
                            assert((*cb).label_spec() == "delete key"@);
                        },
                        (Command::SendKey(_), Command::SendKey(_)) => {
                            assert((*ca).label_spec() == "send key"@);
                            assert((*cb).label_spec() == "send key"@);
                        },
                        _ => {},
                    }
                },
                _ => {},
            }
        } else if i == 0 || i == 1 || i == 2 || i == 3 {
            assert(a[i].label_spec() == b[i].label_spec());
        } else if i == 4 || i == 5 || i == 6 || i == 7 {
            assert(a[i].label_spec() == b[i].label_spec());
        } else if i == 10 || i == 11 || i == 12 || i == 13 {
            assert(a[i].label_spec() == b[i].label_spec());
        } else if i == 14 || i == 15 || i == 16 || i == 17 {
            assert(a[i].label_spec() == b[i].label_spec());
        } else if i == 18 || i == 19 || i == 20 || i == 21 {
            assert(a[i].label_spec() == b[i].label_spec());
        } else if i == 22 || i == 23 || i == 24 || i == 25 {
            assert(a[i].label_spec() == b[i].label_spec());
        } else {
            assert(i == 26 || i == 27);
            assert(a[i].label_spec() == b[i].label_spec());
        }
    }
}

/// The interface flags other than the overlay's visibility are the
/// same in both states; the dispatcher recomputes that visibility on
/// every command, so the outcome predicates leave it free.
pub open spec fn same_flags(pre: App, post: App) -> bool {
    &&& post.state.running == pre.state.running
    &&& post.state.minimized == pre.state.minimized
    &&& post.state.minimize_threshold == pre.state.minimize_threshold
    &&& post.state.colored == pre.state.colored
    &&& post.state.color == pre.state.color
}

/// What `set <option> <value>` does to the state: each option
/// validates its value, applies it whole or not at all, and reports
/// the new state or a usage hint. Stated once, and promised both by
/// the option setter and by the dispatcher.
#[verifier::opaque]
pub open spec fn set_option_outcome(
    pre: App,
    post: App,
    option: Seq<char>,
    value: Seq<char>,
    a: Option<Action>,
) -> bool {
    &&& post.tab == pre.tab
    &&& post.state.running == pre.state.running
    &&& (a is Some <==> option == "output"@)
    &&& option == "output"@ ==> (post.records == pre.records && post.config == pre.config
        && post.mode == pre.mode && same_flags(pre, post) && post.detail_level
        == pre.detail_level && post.table_margin == pre.table_margin && post.public_records
        == pre.public_records && post.secret_records == pre.secret_records && (a matches Some(act)
        && act matches Action::CheckOutputDir(p) && p@ == value))
    &&& option == "armor"@ ==> ({
        &&& value == "true"@ ==> (post.config.armor && post.prompt.text@ == "armor: true"@
            && post.prompt.output_kind == OutputKind::Success)
        &&& value == "false"@ ==> (!post.config.armor && post.prompt.text@ == "armor: false"@
            && post.prompt.output_kind == OutputKind::Success)
        &&& (value != "true"@ && value != "false"@) ==> (post.config.armor == pre.config.armor
            && post.prompt.text@ == "usage: set armor <true/false>"@ && post.prompt.output_kind
            == OutputKind::Failure)
    })
    &&& option == "mode"@ ==> ({
        &&& value == "normal"@ ==> post.mode == Mode::Normal
        &&& value == "visual"@ ==> post.mode == Mode::Visual
        &&& value == "copy"@ ==> post.mode == Mode::Copying
        &&& (value != "normal"@ && value != "visual"@ && value != "copy"@) ==> (post.mode
            == pre.mode && post.prompt.text@ == "invalid mode"@ && post.prompt.output_kind
            == OutputKind::Failure)
    })
    &&& option == "colored"@ ==> ({
        &&& value == "true"@ ==> post.state.colored
        &&& value == "false"@ ==> !post.state.colored
        &&& (value != "true"@ && value != "false"@) ==> (post.state.colored == pre.state.colored
            && post.prompt.output_kind == OutputKind::Failure)
    })
    &&& option == "minimized"@ ==> (post.state.minimize_threshold == 0 && post.state.minimized
        == (value == "true"@))
    &&& option == "margin"@ ==> post.table_margin == (
    if crate::strutil::all_digits(value) && value.len() > 0 && crate::strutil::dec_val(value)
        <= u16::MAX {
        crate::strutil::dec_val(value) as int
    } else {
        0
    })
    &&& option == "color"@ ==> post.state.color == (
    if value == "reset"@ || !crate::color::is_hex_color(value) {
        ColorValue::Reset
    } else {
        ColorValue::Rgb(
            crate::color::hex_pair_val(value, 1) as u8,
            crate::color::hex_pair_val(value, 3) as u8,
            crate::color::hex_pair_val(value, 5) as u8,
        )
    })
    &&& (option != "output"@ && option != "mode"@ && option != "armor"@ && option != "minimized"@
        && option != "minimize"@ && option != "detail"@ && option != "margin"@ && option
        != "colored"@ && option != "color"@) ==> (post.prompt.output_kind == OutputKind::Failure
        && (if option.len() == 0 {
        post.prompt.text@ == "usage: set <option> <value>"@
    } else {
        post.prompt.text@ == "unknown option: "@ + option
    }))
}

/// What `get <option>` reports. Stated once, and promised both by the
/// option getter and by the dispatcher.
#[verifier::opaque]
pub open spec fn get_option_outcome(pre: App, post: App, option: Seq<char>) -> bool {
    &&& post.records == pre.records
    &&& post.tab == pre.tab
    &&& post.mode == pre.mode
    &&& post.config == pre.config
    &&& same_flags(pre, post)
    &&& post.detail_level == pre.detail_level
    &&& post.table_margin == pre.table_margin
    &&& option == "armor"@ ==> (post.prompt.output_kind == OutputKind::Success
        && post.prompt.text@ == "armor: "@ + bool_str(pre.config.armor))
    &&& option == "colored"@ ==> (post.prompt.output_kind == OutputKind::Success
        && post.prompt.text@ == "colored: "@ + bool_str(pre.state.colored))
    &&& option == "minimized"@ ==> (post.prompt.output_kind == OutputKind::Success
        && post.prompt.text@ == "minimized: "@ + bool_str(pre.state.minimized))
    &&& option == "detail"@ ==> (match pre.records.cursor {
        Option::Some(i) => post.prompt.output_kind == OutputKind::Success && post.prompt.text@
            == "detail: "@ + pre.records.items@[i as int]@.detail.label_spec(),
        Option::None => post.prompt.output_kind == OutputKind::Failure && post.prompt.text@
            == "unknown selection"@,
    })
    &&& (option != "output"@ && option != "mode"@ && option != "armor"@ && option != "minimized"@
        && option != "minimize"@ && option != "detail"@ && option != "margin"@ && option
        != "colored"@ && option != "color"@) ==> (post.prompt.output_kind == OutputKind::Failure
        && (if option.len() == 0 {
        post.prompt.text@ == "usage: get <option>"@
    } else {
        post.prompt.text@ == "unknown option: "@ + option
    }))
}

/// What a copy command does: the mode drops back to normal, an empty
/// table yields an explicit failure, the whole key is fetched through
/// the engine, and a plain field goes to the clipboard or fails when
/// none is available. Stated once, and promised both by the copy
/// helper and by the dispatcher.
#[verifier::opaque]
pub open spec fn copy_outcome(pre: App, post: App, kind: CopyKind, a: Option<Action>) -> bool {
    &&& post.mode == Mode::Normal
    &&& post.tab == pre.tab
    &&& post.records.items == pre.records.items
    &&& post.records.cursor == pre.records.cursor
    &&& same_flags(pre, post)
    &&& pre.records.cursor is None ==> (a is None && post.prompt.output_kind
        == OutputKind::Failure && post.prompt.text@ == "invalid selection"@)
    &&& (a matches Some(act) ==> (act is ClipboardSet || act is FetchRecordMaterial))
    &&& (pre.records.cursor is Some && kind is Key) ==> (a matches Some(act)
        && (act matches Action::FetchRecordMaterial(k, ps) && k == (match pre.tab {
        Tab::Records(kk) => kk,
        Tab::Help => KeyKind::Public,
    }) && ps@.len() == 1 && ps@[0]@ == pre.records.items@[pre.records.cursor->0 as int]@.id))
    &&& (pre.records.cursor is Some && !pre.clipboard_available && (kind is KeyId
        || kind is KeyFingerprint || kind is KeyUserId || kind is TableRow)) ==> (a is None
        && (post.prompt.output_kind == OutputKind::Failure))
    &&& (pre.records.cursor is Some && !pre.clipboard_available && (kind is KeyId
        || kind is KeyFingerprint || kind is KeyUserId)) ==> post.prompt.text@
        == "clipboard not available"@
    &&& (pre.records.cursor is Some && pre.clipboard_available && kind is KeyId) ==> (
    a matches Some(act) && (act matches Action::ClipboardSet(content) && content@
        == pre.records.items@[pre.records.cursor->0 as int]@.id))
    &&& (pre.records.cursor is Some && (kind matches CopyKind::TableRow(n) && n != 1 && n != 2))
        ==> (a is None && post.prompt.output_kind == OutputKind::Failure && post.prompt.text@
        == "copy error: invalid row number"@)
}

impl App {
    /// Every cursor-bearing part of the state is well formed.
    pub open spec fn wf(self) -> bool {
        &&& self.records.wf()
        &&& self.options.wf()
        &&& self.help_entries.wf()
    }

    /// A fresh application over the record lists the engine served:
    /// the public table is live, the first record selected, the
    /// prompt idle, nothing pending.
    pub fn new(
        public_records: Vec<Record>,
        secret_records: Vec<Record>,
        help_entries: Vec<HelpEntry>,
        clipboard_available: bool,
        config: EngineConfig,
        minimized: bool,
        minimize_threshold: u16,
        colored: bool,
        color: ColorValue,
    ) -> (r: App)
        ensures
            r.wf(),
            r.state.running,
            !r.state.show_options,
            r.mode == Mode::Normal,
            r.tab == Tab::Records(KeyKind::Public),
            recs_of(r.records.items@) == recs_of(public_records@),
            recs_of(r.public_records@) == recs_of(public_records@),
            recs_of(r.secret_records@) == recs_of(secret_records@),
            r.records.cursor == if public_records@.len() == 0 {
                Option::<usize>::None
            } else {
                Option::Some(0usize)
            },
            r.detail_level == DetailLevel::Minimum,
            r.table_margin == 1,
            r.prompt.text@.len() == 0,
            r.prompt.pending is None,
            r.options.items@.len() == 0,
            r.clipboard_available == clipboard_available,
            r.state.minimized == minimized,
            r.state.minimize_threshold == minimize_threshold,
            r.state.colored == colored,
            r.state.color == color,
            r.config == config,
            r.prompt.output_kind == OutputKind::Neutral,
            r.prompt.clock is None,
            r.staged_output is None,
            r.saved_public is None,
            r.saved_secret is None,
            r.help_entries.items == help_entries,
    {
        let table = RecordContainer::with_items(clone_records(&public_records));
        App {
            state: AppState {
                running: true,
                minimized,
                minimize_threshold,
                colored,
                color,
                show_options: false,
            },
            mode: Mode::Normal,
            prompt: Prompt::cleared(),
            tab: Tab::Records(KeyKind::Public),
            options: CursorList::with_items(Vec::new()),
            help_entries: CursorList::with_items(help_entries),
            public_records,
            secret_records,
            records: table,
            saved_public: Option::None,
            saved_secret: Option::None,
            detail_level: DetailLevel::Minimum,
            table_margin: 1,
            clipboard_available,
            config,
            staged_output: Option::None,
        }
    }

    /// Expires the prompt's timed message: the prompt is cleared
    /// exactly when the message is older than
    /// [`crate::prompt::MESSAGE_DURATION_MS`] and no confirmation is
    /// pending; nothing else moves on a tick.
    pub fn tick(&mut self, now: u64)
        requires
            old(self).wf(),
        ensures
            final(self).wf(),
            final(self).records == old(self).records,
            final(self).options == old(self).options,
            final(self).help_entries == old(self).help_entries,
            final(self).tab == old(self).tab,
            final(self).mode == old(self).mode,
            final(self).state == old(self).state,
            final(self).config == old(self).config,
            final(self).public_records == old(self).public_records,
            final(self).secret_records == old(self).secret_records,
            final(self).saved_public == old(self).saved_public,
            final(self).saved_secret == old(self).saved_secret,
            final(self).detail_level == old(self).detail_level,
            final(self).table_margin == old(self).table_margin,
            final(self).staged_output == old(self).staged_output,
            ({
                let expired = match old(self).prompt.clock {
                    Option::Some(stamp) => now > stamp && now - stamp
                        > crate::prompt::MESSAGE_DURATION_MS,
                    Option::None => false,
                };
                if expired && old(self).prompt.pending is None {
                    &&& final(self).prompt.text@.len() == 0
                    &&& final(self).prompt.output_kind == OutputKind::Neutral
                    &&& final(self).prompt.clock is None
                    &&& final(self).prompt.pending is None
                } else {
                    final(self).prompt == old(self).prompt
                }
            }),
    {
        self.prompt.tick(now);
    }

    /// Recomputes the minimized flag from the terminal width, as the
    /// render step reports it; active only with a nonzero threshold.
    pub fn update_minimized(&mut self, terminal_width: u16)
        ensures
            old(self).state.minimize_threshold != 0 ==> final(self).state.minimized == (
            terminal_width < old(self).state.minimize_threshold),
            old(self).state.minimize_threshold == 0 ==> *final(self) == *old(self),
            final(self).state.minimize_threshold == old(self).state.minimize_threshold,
            final(self).records == old(self).records,
            final(self).prompt == old(self).prompt,
    {
        if self.state.minimize_threshold != 0 {
            self.state.minimized = terminal_width < self.state.minimize_threshold;
        }
    }

    /// The record list currently stored for a category.
    fn stored_records(&self, kind: KeyKind) -> (r: &Vec<Record>)
        ensures
            kind == KeyKind::Public ==> r == &self.public_records,
            kind == KeyKind::Secret ==> r == &self.secret_records,
    {
        match kind {
            KeyKind::Public => &self.public_records,
            KeyKind::Secret => &self.secret_records,
        }
    }

    /// Completes a refresh with the fresh category lists the engine
    /// served: mode and prompt reset, per-category snapshots and
    /// detail level dropped, the live table rebuilt from the fresh
    /// data, and a staged message (an import count, a copy notice)
    /// shown.
    pub fn apply_record_listing(
        &mut self,
        public_records: Vec<Record>,
        secret_records: Vec<Record>,
        now: u64,
    )
        requires
            old(self).wf(),
        ensures
            final(self).wf(),
            final(self).mode == Mode::Normal,
            final(self).prompt.pending is None,
            !final(self).state.show_options,
            recs_of(final(self).public_records@) == recs_of(public_records@),
            recs_of(final(self).secret_records@) == recs_of(secret_records@),
            final(self).saved_public is None && final(self).saved_secret is None,
            final(self).detail_level == DetailLevel::Minimum,
            final(self).table_margin == 1,
            final(self).staged_output is None,
            old(self).tab matches Tab::Records(k) ==> recs_of(final(self).records.items@)
                == recs_of(
                if k == KeyKind::Public {
                    public_records@
                } else {
                    secret_records@
                },
            ),
            old(self).tab is Help ==> final(self).records == old(self).records,
            old(self).tab matches Tab::Records(k) ==> (final(self).records.cursor == (
            if (if k == KeyKind::Public {
                public_records@
            } else {
                secret_records@
            }).len() == 0 {
                Option::<usize>::None
            } else {
                Option::Some(0usize)
            }) && final(self).records.scroll == 0 && final(self).records.max_scroll == 0),
            final(self).tab == old(self).tab,
            final(self).options.items == old(self).options.items,
            final(self).options.cursor == (if old(self).options.items@.len() == 0 {
                old(self).options.cursor
            } else {
                Option::Some(0usize)
            }),
            old(self).staged_output matches Some((kind, msg)) ==> (final(self).prompt.text == msg
                && final(self).prompt.output_kind == kind),
            old(self).staged_output is None ==> final(self).prompt.text@.len() == 0,
    {
        self.state.show_options = false;
        self.mode = Mode::Normal;
        self.prompt.clear();
        self.options.select_first();
        self.saved_public = Option::None;
        self.saved_secret = Option::None;
        self.detail_level = DetailLevel::Minimum;
        self.table_margin = 1;
        match self.tab {
            Tab::Records(KeyKind::Public) => {
                self.records.replace(clone_records(&public_records));
            },
            Tab::Records(KeyKind::Secret) => {
                self.records.replace(clone_records(&secret_records));
            },
            Tab::Help => {},
        }
        self.public_records = public_records;
        self.secret_records = secret_records;
        let mut staged = Option::None;
        core::mem::swap(&mut staged, &mut self.staged_output);
        match staged {
            Option::Some((kind, msg)) => {
                self.prompt.set_output(kind, msg, now);
            },
            Option::None => {},
        }
    }

    /// Enters the help tab, making sure its list has a cursor.
    fn show_help(&mut self)
        requires
            old(self).wf(),
        ensures
            final(self).wf(),
            final(self).tab == Tab::Help,
            final(self).records == old(self).records,
            final(self).prompt == old(self).prompt,
            final(self).help_entries.items == old(self).help_entries.items,
            final(self).state == old(self).state,
    {
        self.tab = Tab::Help;
        match self.help_entries.cursor {
            Option::None => {
                self.help_entries.select_first();
            },
            Option::Some(_) => {},
        }
    }

    /// Switches to the records of `kind`: the current category's
    /// cursor and scroll are snapshotted and its (unfiltered) records
    /// stored back, the target category's table is rebuilt from the
    /// stored records, and its old position restored when one was
    /// saved.
    fn list_keys(&mut self, kind: KeyKind)
        requires
            old(self).wf(),
        ensures
            final(self).wf(),
            final(self).tab == Tab::Records(kind),
            final(self).prompt == old(self).prompt,
            final(self).mode == old(self).mode,
            final(self).state == old(self).state,
            recs_of(final(self).records.default_items@) == recs_of(
                if kind == KeyKind::Public {
                    if old(self).tab == Tab::Records(KeyKind::Public) {
                        old(self).records.default_items@
                    } else {
                        old(self).public_records@
                    }
                } else {
                    if old(self).tab == Tab::Records(KeyKind::Secret) {
                        old(self).records.default_items@
                    } else {
                        old(self).secret_records@
                    }
                },
            ),
    {
        match self.tab {
            Tab::Records(previous) => {
                let snap = self.records.snapshot();
                match previous {
                    KeyKind::Public => {
                        self.saved_public = Option::Some(snap);
                        self.public_records = clone_records(&self.records.default_items);
                    },
                    KeyKind::Secret => {
                        self.saved_secret = Option::Some(snap);
                        self.secret_records = clone_records(&self.records.default_items);
                    },
                }
            },
            Tab::Help => {},
        }
        match kind {
            KeyKind::Public => {
                self.records.replace(clone_records(&self.public_records));
                match self.saved_public {
                    Option::Some(snap) => {
                        self.records.restore(snap);
                    },
                    Option::None => {},
                }
            },
            KeyKind::Secret => {
                self.records.replace(clone_records(&self.secret_records));
                match self.saved_secret {
                    Option::Some(snap) => {
                        self.records.restore(snap);
                    },
                    Option::None => {},
                }
            },
        }
        self.tab = Tab::Records(kind);
    }

    /// Routes a navigation command to whichever list is visible: the
    /// options overlay first, then the help list on the help tab,
    /// then the record table. Returns whether the overlay stays
    /// open.
    fn scroll_nav(&mut self, direction: ScrollDirection) -> (keep_options: bool)
        requires
            old(self).wf(),
        ensures
            final(self).wf(),
            keep_options == old(self).state.show_options,
            final(self).prompt == old(self).prompt,
            final(self).tab == old(self).tab,
            final(self).state == old(self).state,
            final(self).mode == old(self).mode,
            final(self).config == old(self).config,
            final(self).records.items == old(self).records.items,
            final(self).records.default_items == old(self).records.default_items,
            final(self).options.items == old(self).options.items,
            final(self).help_entries.items == old(self).help_entries.items,
            !old(self).state.show_options && !(old(self).tab is Help) && old(self).records.items@.len() > 0 ==> final(self).records.cursor == Option::Some(
                (match direction {
                    ScrollDirection::Down(_) => crate::container::step_fwd(
                        old(self).records.cursor_index(),
                        1,
                        old(self).records.items@.len(),
                    ),
                    ScrollDirection::Up(_) => crate::container::step_back(
                        old(self).records.cursor_index(),
                        1,
                    ),
                    ScrollDirection::Top => 0,
                    ScrollDirection::Bottom => (old(self).records.items@.len() - 1) as nat,
                }) as usize,
            ),
            old(self).state.show_options && old(self).options.items@.len() > 0 ==> final(self).options.cursor == Option::Some(
                (match direction {
                    ScrollDirection::Down(_) => crate::container::step_fwd(
                        old(self).options.cursor_index(),
                        1,
                        old(self).options.items@.len(),
                    ),
                    ScrollDirection::Up(_) => crate::container::step_back(
                        old(self).options.cursor_index(),
                        1,
                    ),
                    ScrollDirection::Top => 0,
                    ScrollDirection::Bottom => (old(self).options.items@.len() - 1) as nat,
                }) as usize,
            ),
            !old(self).state.show_options && old(self).tab is Help && old(self).help_entries.items@.len() > 0 ==> final(self).help_entries.cursor == Option::Some(
                (match direction {
                    ScrollDirection::Down(_) => crate::container::step_fwd(
                        old(self).help_entries.cursor_index(),
                        1,
                        old(self).help_entries.items@.len(),
                    ),
                    ScrollDirection::Up(_) => crate::container::step_back(
                        old(self).help_entries.cursor_index(),
                        1,
                    ),
                    ScrollDirection::Top => 0,
                    ScrollDirection::Bottom => (old(self).help_entries.items@.len() - 1) as nat,
                }) as usize,
            ),
            old(self).state.show_options ==> final(self).records == old(self).records,
            !old(self).state.show_options && !(old(self).tab is Help) ==> (final(self).records.default_items == old(self).records.default_items && final(self).records.max_scroll == old(self).records.max_scroll),
    {
        if self.state.show_options {
            match direction {
                ScrollDirection::Down(_) => self.options.advance(),
                ScrollDirection::Up(_) => self.options.retreat(),
                ScrollDirection::Top => self.options.select_first(),
                ScrollDirection::Bottom => self.options.select_last(),
            }
            true
        } else if matches!(self.tab, Tab::Help) {
            match direction {
                ScrollDirection::Down(_) => self.help_entries.advance(),
                ScrollDirection::Up(_) => self.help_entries.retreat(),
                ScrollDirection::Top => self.help_entries.select_first(),
                ScrollDirection::Bottom => self.help_entries.select_last(),
            }
            false
        } else {
            match direction {
                ScrollDirection::Down(_) => self.records.advance(1),
                ScrollDirection::Up(_) => self.records.retreat(1),
                ScrollDirection::Top => self.records.select_first(),
                ScrollDirection::Bottom => self.records.select_last(),
            }
            false
        }
    }

    /// Scrolls the selected record's own lines.
    fn scroll_row(&mut self, direction: ScrollDirection)
        ensures
            final(self).wf() == old(self).wf(),
            final(self).records.items == old(self).records.items,
            final(self).records.cursor == old(self).records.cursor,
            final(self).prompt == old(self).prompt,
            final(self).state == old(self).state,
            final(self).mode == old(self).mode,
            final(self).tab == old(self).tab,
            final(self).config == old(self).config,
            final(self).records.default_items == old(self).records.default_items,
            final(self).records.max_scroll == old(self).records.max_scroll,
            final(self).options == old(self).options,
            final(self).help_entries == old(self).help_entries,
            final(self).records.scroll == (match direction {
                ScrollDirection::Down(n) => if old(self).records.scroll + n
                    > old(self).records.max_scroll {
                    old(self).records.max_scroll as int
                } else {
                    old(self).records.scroll + n
                },
                ScrollDirection::Up(n) => crate::container::step_back(
                    old(self).records.scroll as nat,
                    n as nat,
                ) as int,
                ScrollDirection::Top => 0,
                ScrollDirection::Bottom => old(self).records.max_scroll as int,
            }),
    {
        match direction {
            ScrollDirection::Down(n) => self.records.scroll_down(n as usize),
            ScrollDirection::Up(n) => self.records.scroll_up(n as usize),
            ScrollDirection::Top => self.records.scroll_up(usize::MAX),
            ScrollDirection::Bottom => self.records.scroll_down(usize::MAX),
        }
    }

    /// Switches the interaction mode; switching into the copy mode
    /// is refused while the table is empty, so a selection always
    /// exists when a copy target is chosen.
    fn switch_mode(&mut self, m: Mode, now: u64)
        requires
            old(self).wf(),
        ensures
            final(self).wf(),
            final(self).records == old(self).records,
            final(self).tab == old(self).tab,
            (m == Mode::Copying && old(self).records.items@.len() == 0) ==> *final(self) == *old(self),
            final(self).state == old(self).state,
            final(self).prompt.pending == old(self).prompt.pending,
            !(m == Mode::Copying && old(self).records.items@.len() == 0) ==> (final(self).mode
                == m && final(self).prompt.output_kind == OutputKind::Action && final(self).prompt.text@ == m.label_spec()),
    {
        if !(matches!(m, Mode::Copying) && self.records.items.len() == 0) {
            self.mode = m;
            let label = m.label();
            self.prompt.set_output(OutputKind::Action, label, now);
        }
    }

    /// Raises the detail level: of every record when `all` is set,
    /// else of the selected record alone.
    fn toggle_detail(&mut self, all: bool)
        requires
            old(self).wf(),
        ensures
            final(self).wf(),
            final(self).prompt == old(self).prompt,
            final(self).tab == old(self).tab,
            all ==> final(self).detail_level == old(self).detail_level.next_up(),
            final(self).state == old(self).state,
            !all ==> final(self).detail_level == old(self).detail_level,
            !all && old(self).records.cursor is None ==> final(self).records == old(self).records,
            !all ==> (old(self).records.cursor matches Some(i) ==> recs_of(
                final(self).records.items@,
            )[i as int].detail == recs_of(old(self).records.items@)[i as int].detail.next_up()),
            final(self).records.cursor == old(self).records.cursor,
            final(self).records.scroll == old(self).records.scroll,
            all ==> recs_of(final(self).records.items@) == recs_of(
                old(self).records.items@,
            ).map_values(
                |r: RecordData| (RecordData { detail: old(self).detail_level.next_up(), ..r }),
            ),
            all ==> recs_of(final(self).records.default_items@) == recs_of(
                old(self).records.default_items@,
            ).map_values(
                |r: RecordData| (RecordData { detail: old(self).detail_level.next_up(), ..r }),
            ),
    {
        if all {
            self.detail_level.increase();
            self.records.set_all_detail(self.detail_level);
        } else {
            match self.records.cursor {
                Option::Some(i) => {
                    proof {
                        crate::records::lemma_recs_index(self.records.items@, i as int);
                    }
                    let mut d = self.records.items[i].detail;
                    d = match d {
                        DetailLevel::Minimum => DetailLevel::Standard,
                        DetailLevel::Standard => DetailLevel::Full,
                        DetailLevel::Full => DetailLevel::Full,
                    };
                    self.records.set_selected_detail(d);
                },
                Option::None => {},
            }
        }
    }

    /// The recognized option names are pairwise distinct: their
    /// lengths, and the first character where lengths collide.
    proof fn lemma_option_names()
        ensures
            "output"@.len() == 6,
            "mode"@.len() == 4,
            "armor"@.len() == 5,
            "minimized"@.len() == 9,
            "minimize"@.len() == 8,
            "detail"@.len() == 6,
            "margin"@.len() == 6,
            "colored"@.len() == 7,
            "color"@.len() == 5,
            "output"@[0] == 'o',
            "detail"@[0] == 'd',
            "margin"@[0] == 'm',
            "armor"@[0] == 'a',
            "color"@[0] == 'c',
    {
        reveal_strlit("output");
        reveal_strlit("mode");
        reveal_strlit("armor");
        reveal_strlit("minimized");
        reveal_strlit("minimize");
        reveal_strlit("detail");
        reveal_strlit("margin");
        reveal_strlit("colored");
        reveal_strlit("color");
    }

    /// Applies `set <option> <value>`: each option validates its
    /// value, reports the new state on success, and reports a usage
    /// hint, leaving the old value untouched, when the value does not
    /// parse. Only the output directory needs outside help: it is
    /// handed back as a [`Action::CheckOutputDir`].
    fn set_option(&mut self, option: &str, value: &str, now: u64) -> (a: Option<Action>)
        requires
            old(self).wf(),
        ensures
            final(self).wf(),
            final(self).prompt.pending == old(self).prompt.pending,
            final(self).state.show_options == old(self).state.show_options,
            option@ == "output"@ ==> *final(self) == *old(self),
            set_option_outcome(*old(self), *final(self), option@, value@, a),
    {
        proof {
            reveal(set_option_outcome);
            reveal_strlit("output");
            reveal_strlit("mode");
            reveal_strlit("armor");
            reveal_strlit("minimized");
            reveal_strlit("minimize");
            reveal_strlit("detail");
            reveal_strlit("margin");
            reveal_strlit("colored");
            reveal_strlit("color");
            reveal_strlit("reset");
            Self::lemma_option_names();
        }
        if crate::strutil::str_eq(option, "output") {
            return Some(Action::CheckOutputDir(value.to_owned()));
        }
        if crate::strutil::str_eq(option, "mode") {
            match Mode::parse(value) {
                Option::Some(m) => {
                    self.mode = m;
                    let mut msg = "mode: ".to_owned();
                    msg.append(m.label().as_str());
                    self.prompt.set_output(OutputKind::Success, msg, now);
                },
                Option::None => {
                    self.prompt.set_output(
                        OutputKind::Failure,
                        "invalid mode".to_owned(),
                        now,
                    );
                },
            }
            return None;
        }
        if crate::strutil::str_eq(option, "armor") {
            match crate::strutil::parse_bool(value) {
                Option::Some(b) => {
                    self.config.armor = b;
                    let mut msg = "armor: ".to_owned();
                    msg.append(bool_to_string(b).as_str());
                    proof {
                        if b {
                            assert(msg@ =~= "armor: true"@) by {
                                reveal_strlit("armor: ");
                                reveal_strlit("true");
                                reveal_strlit("armor: true");
                            }
                        } else {
                            assert(msg@ =~= "armor: false"@) by {
                                reveal_strlit("armor: ");
                                reveal_strlit("false");
                                reveal_strlit("armor: false");
                            }
                        }
                    }
                    self.prompt.set_output(OutputKind::Success, msg, now);
                },
                Option::None => {
                    self.prompt.set_output(
                        OutputKind::Failure,
                        "usage: set armor <true/false>".to_owned(),
                        now,
                    );
                },
            }
            return None;
        }
        if crate::strutil::str_eq(option, "minimized") {
            self.state.minimize_threshold = 0;
            let b = match crate::strutil::parse_bool(value) {
                Option::Some(b) => b,
                Option::None => false,
            };
            self.state.minimized = b;
            let mut msg = "minimized: ".to_owned();
            msg.append(bool_to_string(b).as_str());
            self.prompt.set_output(OutputKind::Success, msg, now);
            return None;
        }
        if crate::strutil::str_eq(option, "minimize") {
            let t = match crate::strutil::parse_u16(value) {
                Option::Some(t) => t,
                Option::None => 0,
            };
            self.state.minimize_threshold = t;
            let mut msg = "minimize threshold: ".to_owned();
            msg.append(u64_to_string(t as u64).as_str());
            self.prompt.set_output(OutputKind::Success, msg, now);
            return None;
        }
        if crate::strutil::str_eq(option, "detail") {
            match DetailLevel::parse(value) {
                Option::Some(d) => {
                    self.records.set_selected_detail(d);
                    let mut msg = "detail: ".to_owned();
                    msg.append(d.label().as_str());
                    self.prompt.set_output(OutputKind::Success, msg, now);
                },
                Option::None => {
                    self.prompt.set_output(
                        OutputKind::Failure,
                        "usage: set detail <level>".to_owned(),
                        now,
                    );
                },
            }
            return None;
        }
        if crate::strutil::str_eq(option, "margin") {
            let m = match crate::strutil::parse_u16(value) {
                Option::Some(m) => m,
                Option::None => 0,
            };
            self.table_margin = m;
            let mut msg = "table margin: ".to_owned();
            msg.append(u64_to_string(m as u64).as_str());
            self.prompt.set_output(OutputKind::Success, msg, now);
            return None;
        }
        if crate::strutil::str_eq(option, "colored") {
            match crate::strutil::parse_bool(value) {
                Option::Some(b) => {
                    self.state.colored = b;
                    let mut msg = "colored: ".to_owned();
                    msg.append(bool_to_string(b).as_str());
                    self.prompt.set_output(OutputKind::Success, msg, now);
                },
                Option::None => {
                    self.prompt.set_output(
                        OutputKind::Failure,
                        "usage: set colored <true/false>".to_owned(),
                        now,
                    );
                },
            }
            return None;
        }
        if crate::strutil::str_eq(option, "color") {
            let c = ColorValue::parse(value);
            self.state.color = c;
            let mut msg = "color: ".to_owned();
            msg.append(c.render().as_str());
            self.prompt.set_output(OutputKind::Success, msg, now);
            return None;
        }
        if option.is_empty() {
            self.prompt.set_output(
                OutputKind::Failure,
                "usage: set <option> <value>".to_owned(),
                now,
            );
        } else {
            let mut msg = "unknown option: ".to_owned();
            msg.append(option);
            self.prompt.set_output(OutputKind::Failure, msg, now);
        }
        None
    }

    /// Answers `get <option>`: reports the option's current value,
    /// `unknown option` for a name it does not know, and a usage
    /// hint for an empty name.
    fn get_option(&mut self, option: &str, now: u64)
        requires
            old(self).wf(),
        ensures
            final(self).wf(),
            final(self).prompt.pending == old(self).prompt.pending,
            final(self).state.show_options == old(self).state.show_options,
            get_option_outcome(*old(self), *final(self), option@),
    {
        proof {
            reveal(get_option_outcome);
            reveal_strlit("output");
            reveal_strlit("mode");
            reveal_strlit("armor");
            reveal_strlit("minimized");
            reveal_strlit("minimize");
            reveal_strlit("detail");
            reveal_strlit("margin");
            reveal_strlit("colored");
            reveal_strlit("color");
            Self::lemma_option_names();
        }
        if crate::strutil::str_eq(option, "output") {
            let mut msg = "output directory: ".to_owned();
            msg.append(self.config.output_dir.as_str());
            self.prompt.set_output(OutputKind::Success, msg, now);
            return ;
        }
        if crate::strutil::str_eq(option, "mode") {
            let mut msg = "mode: ".to_owned();
            let label = self.mode.label();
            msg.append(label.as_str());
            self.prompt.set_output(OutputKind::Success, msg, now);
            return ;
        }
        if crate::strutil::str_eq(option, "armor") {
            let mut msg = "armor: ".to_owned();
            msg.append(bool_to_string(self.config.armor).as_str());
            self.prompt.set_output(OutputKind::Success, msg, now);
            return ;
        }
        if crate::strutil::str_eq(option, "minimized") {
            let mut msg = "minimized: ".to_owned();
            msg.append(bool_to_string(self.state.minimized).as_str());
            self.prompt.set_output(OutputKind::Success, msg, now);
            return ;
        }
        if crate::strutil::str_eq(option, "minimize") {
            let mut msg = "minimize threshold: ".to_owned();
            msg.append(u64_to_string(self.state.minimize_threshold as u64).as_str());
            self.prompt.set_output(OutputKind::Success, msg, now);
            return ;
        }
        if crate::strutil::str_eq(option, "detail") {
            match self.records.cursor {
                Option::Some(i) => {
                    let mut msg = "detail: ".to_owned();
                    let label = self.records.items[i].detail.label();
                    msg.append(label.as_str());
                    proof {
                        crate::records::lemma_recs_index(self.records.items@, i as int);
                    }
                    self.prompt.set_output(OutputKind::Success, msg, now);
                },
                Option::None => {
                    self.prompt.set_output(
                        OutputKind::Failure,
                        "unknown selection".to_owned(),
                        now,
                    );
                },
            }
            return ;
        }
        if crate::strutil::str_eq(option, "margin") {
            let mut msg = "table margin: ".to_owned();
            msg.append(u64_to_string(self.table_margin as u64).as_str());
            self.prompt.set_output(OutputKind::Success, msg, now);
            return ;
        }
        if crate::strutil::str_eq(option, "colored") {
            let mut msg = "colored: ".to_owned();
            msg.append(bool_to_string(self.state.colored).as_str());
            self.prompt.set_output(OutputKind::Success, msg, now);
            return ;
        }
        if crate::strutil::str_eq(option, "color") {
            let mut msg = "color: ".to_owned();
            let rendered = self.state.color.render();
            msg.append(rendered.as_str());
            self.prompt.set_output(OutputKind::Success, msg, now);
            return ;
        }
        if option.is_empty() {
            self.prompt.set_output(OutputKind::Failure, "usage: get <option>".to_owned(), now);
        } else {
            let mut msg = "unknown option: ".to_owned();
            msg.append(option);
            self.prompt.set_output(OutputKind::Failure, msg, now);
        }
    }

    /// The category whose records are on screen; the public one
    /// while the help tab is shown.
    fn current_kind(&self) -> (k: KeyKind)
        ensures
            k == (match self.tab {
                Tab::Records(kk) => kk,
                Tab::Help => KeyKind::Public,
            }),
    {
        match self.tab {
            Tab::Records(kk) => kk,
            Tab::Help => KeyKind::Public,
        }
    }

    /// Carries out a copy command: computes the content for the
    /// requested target and hands it to the clipboard, fetching the
    /// key material through the engine first when the whole key is
    /// asked for. Always drops back to the normal mode. An empty
    /// table, an unknown row number, or a missing clipboard each
    /// yield a failure message instead of a crash.
    fn copy_text(&mut self, kind: CopyKind, now: u64) -> (a: Option<Action>)
        requires
            old(self).wf(),
        ensures
            final(self).wf(),
            final(self).prompt.pending == old(self).prompt.pending,
            final(self).state.show_options == old(self).state.show_options,
            copy_outcome(*old(self), *final(self), kind, a),
    {
        proof {
            reveal(copy_outcome);
        }
        self.mode = Mode::Normal;
        let i = match self.records.cursor {
            Option::None => {
                self.prompt.set_output(
                    OutputKind::Failure,
                    "invalid selection".to_owned(),
                    now,
                );
                return None;
            },
            Option::Some(i) => i,
        };
        proof {
            crate::records::lemma_recs_index(self.records.items@, i as int);
        }
        let content: String = match kind {
            CopyKind::Key => {
                let mut patterns: Vec<String> = Vec::new();
                patterns.push(self.records.items[i].id.clone());
                let k = self.current_kind();
                return Some(Action::FetchRecordMaterial(k, patterns));
            },
            CopyKind::KeyId => self.records.items[i].id.clone(),
            CopyKind::KeyFingerprint => self.records.items[i].fingerprint.clone(),
            CopyKind::KeyUserId => self.records.items[i].user_id.clone(),
            CopyKind::TableRow(n) => {
                if n == 1 {
                    crate::strutil::join_strings(
                        &self.records.items[i].primary_lines(self.state.minimized),
                        "\n",
                    )
                } else if n == 2 {
                    crate::strutil::join_strings(
                        &self.records.items[i].secondary_lines(self.state.minimized),
                        "\n",
                    )
                } else {
                    self.prompt.set_output(
                        OutputKind::Failure,
                        "copy error: invalid row number".to_owned(),
                        now,
                    );
                    return None;
                }
            },
        };
        self.send_to_clipboard(kind, content, now)
    }

    /// Stages the `copied to clipboard` notice and hands the content
    /// out, or reports that no clipboard is available.
    fn send_to_clipboard(&mut self, kind: CopyKind, content: String, now: u64) -> (a: Option<
        Action,
    >)
        requires
            old(self).wf(),
        ensures
            final(self).wf(),
            final(self).mode == old(self).mode,
            final(self).tab == old(self).tab,
            final(self).records == old(self).records,
            final(self).prompt.pending == old(self).prompt.pending,
            final(self).state == old(self).state,
            final(self).config == old(self).config,
            final(self).public_records == old(self).public_records,
            final(self).secret_records == old(self).secret_records,
            final(self).saved_public == old(self).saved_public,
            final(self).saved_secret == old(self).saved_secret,
            old(self).clipboard_available ==> (a == Some(Action::ClipboardSet(content)) && (final(self).staged_output matches Some((k, msg)) && k == OutputKind::Success && msg@
                == kind.label_spec() + " copied to clipboard"@)),
            !old(self).clipboard_available ==> (a is None && final(self).prompt.output_kind
                == OutputKind::Failure && final(self).prompt.text@ == "clipboard not available"@),
    {
        if self.clipboard_available {
            let mut msg = kind.label();
            msg.append(" copied to clipboard");
            self.staged_output = Option::Some((OutputKind::Success, msg));
            Some(Action::ClipboardSet(content))
        } else {
            self.prompt.set_output(
                OutputKind::Failure,
                "clipboard not available".to_owned(),
                now,
            );
            None
        }
    }

    /// Asks for the clipboard's contents to seed the command prompt,
    /// or reports that no clipboard is available.
    fn paste(&mut self, now: u64) -> (a: Option<Action>)
        requires
            old(self).wf(),
        ensures
            final(self).wf(),
            old(self).clipboard_available ==> (a == Some(Action::ClipboardGet) && *final(self)
                == *old(self)),
            final(self).state == old(self).state,
            final(self).prompt.pending == old(self).prompt.pending,
            final(self).records == old(self).records,
            !old(self).clipboard_available ==> (a is None && final(self).prompt.output_kind
                == OutputKind::Failure && final(self).prompt.text@ == "clipboard not available"@),
    {
        if self.clipboard_available {
            Some(Action::ClipboardGet)
        } else {
            self.prompt.set_output(
                OutputKind::Failure,
                "clipboard not available".to_owned(),
                now,
            );
            None
        }
    }

    /// Enters search mode, optionally seeded, and resets the visible
    /// set to the full unfiltered sequence.
    fn search(&mut self, seed: Option<String>)
        requires
            old(self).wf(),
        ensures
            final(self).wf(),
            final(self).prompt.is_search_entry(),
            final(self).prompt.pending is None,
            final(self).state == old(self).state,
            recs_of(final(self).records.items@) == recs_of(old(self).records.default_items@),
            final(self).records.default_items == old(self).records.default_items,
            final(self).prompt.search_query_spec() == (match seed {
                Option::Some(q) => q@,
                Option::None => Seq::<char>::empty(),
            }),
    {
        self.prompt.enable_search(seed);
        self.records.clear_filter();
        proof {
            assert(self.prompt.text@.drop_first() =~= (match seed {
                Option::Some(q) => q@,
                Option::None => Seq::<char>::empty(),
            }));
        }
    }

    /// Recomputes the visible set from the current search buffer; a
    /// caller invokes this after every text change while the search
    /// prompt is open.
    pub fn refresh_filter(&mut self)
        requires
            old(self).wf(),
        ensures
            final(self).wf(),
            final(self).prompt == old(self).prompt,
            final(self).tab == old(self).tab,
            old(self).prompt.is_search_entry() ==> recs_of(final(self).records.items@)
                == crate::container::filter_spec(
                recs_of(old(self).records.default_items@),
                old(self).state.minimized,
                old(self).prompt.search_query_spec(),
            ),
            !old(self).prompt.is_search_entry() ==> *final(self) == *old(self),
            final(self).records.default_items == old(self).records.default_items,
    {
        let is_search = self.prompt.text.as_str().unicode_len() > 0 && self.prompt.text.as_str().get_char(0) == '/';
        if is_search {
            let q = self.prompt.search_query();
            self.records.apply_filter(self.state.minimized, q.as_str());
        }
    }

    /// Rebuilds the options overlay for the current state and applies
    /// the cursor-restoration rule: the previous cursor survives when
    /// the previous list was empty or the new list has the same
    /// length; otherwise the cursor falls back to the first entry.
    fn show_options_cmd(&mut self)
        requires
            old(self).wf(),
        ensures
            final(self).wf(),
            final(self).records == old(self).records,
            final(self).tab == old(self).tab,
            final(self).prompt == old(self).prompt,
            final(self).state == old(self).state,
            final(self).mode == old(self).mode,
            final(self).config == old(self).config,
            final(self).table_margin == old(self).table_margin,
            final(self).detail_level == old(self).detail_level,
            options_built(
                final(self).options.items@,
                old(self).tab,
                selected_id(old(self).records),
                old(self).config.armor,
                old(self).table_margin,
                old(self).state.minimized,
                old(self).state.colored,
                old(self).mode,
            ),
            (old(self).options.items@.len() == 0 || final(self).options.items@.len() == old(self).options.items@.len()) ==> final(self).options.cursor == (match old(self).options.cursor {
                Option::Some(p) => Option::Some(p),
                Option::None => Option::Some(0usize),
            }),
            !(old(self).options.items@.len() == 0 || final(self).options.items@.len() == old(self).options.items@.len()) ==> final(self).options.cursor == Option::Some(0usize),
            final(self).options.items@.len() > 0,
    {
        let prev_len = self.options.items.len();
        let prev_sel = self.options.cursor;
        let items = self.build_options();
        self.options = CursorList::with_items(items);
        if prev_len == 0 || self.options.items.len() == prev_len {
            match prev_sel {
                Option::Some(p) => {
                    self.options.select(p);
                },
                Option::None => {},
            }
        }
    }

    /// Builds the option list offered for the current tab, selection
    /// and settings.
    fn build_options(&self) -> (r: Vec<Command>)
        requires
            self.wf(),
        ensures
            options_built(
                r@,
                self.tab,
                selected_id(self.records),
                self.config.armor,
                self.table_margin,
                self.state.minimized,
                self.state.colored,
                self.mode,
            ),
            r@.len() > 0,
    {
        proof {
            reveal(options_built);
        }
        let mode_switch = if matches!(self.mode, Mode::Visual) {
            Command::SwitchMode(Mode::Normal)
        } else {
            Command::SwitchMode(Mode::Visual)
        };
        let mut r: Vec<Command> = Vec::new();
        match self.tab {
            Tab::Help => {
                r.push(Command::Noop);
                r.push(Command::ListKeys(KeyKind::Public));
                r.push(Command::ListKeys(KeyKind::Secret));
                r.push(mode_switch);
                r.push(Command::Refresh);
                r.push(Command::Quit);
            },
            Tab::Records(k) => {
                r.push(Command::Noop);
                r.push(Command::ShowHelp);
                r.push(Command::Refresh);
                r.push(Command::RefreshKeys);
                r.push(
                    Command::SetOption("prompt".to_owned(), ":import ".to_owned()),
                );
                r.push(
                    Command::SetOption("prompt".to_owned(), ":receive ".to_owned()),
                );
                match self.records.cursor {
                    Option::Some(i) => {
                        proof {
                            crate::records::lemma_recs_index(self.records.items@, i as int);
                        }
                        let id = &self.records.items[i].id;
                        let mut one: Vec<String> = Vec::new();
                        one.push(id.clone());
                        r.push(Command::ExportKeys(k, one));
                        r.push(Command::ExportKeys(k, Vec::new()));
                        r.push(
                            Command::Confirm(
                                Box::new(Command::DeleteKey(k, id.clone())),
                            ),
                        );
                        r.push(Command::Confirm(Box::new(Command::SendKey(id.clone()))));
                        r.push(Command::EditKey(id.clone()));
                        r.push(Command::SignKey(id.clone()));
                        r.push(Command::GenerateKey);
                        r.push(
                            Command::SetOption(
                                "armor".to_owned(),
                                bool_to_string(!self.config.armor),
                            ),
                        );
                        r.push(Command::CopyText(CopyKind::Key));
                        r.push(Command::CopyText(CopyKind::KeyId));
                        r.push(Command::CopyText(CopyKind::KeyFingerprint));
                        r.push(Command::CopyText(CopyKind::KeyUserId));
                        r.push(Command::CopyText(CopyKind::TableRow(1)));
                        r.push(Command::CopyText(CopyKind::TableRow(2)));
                        r.push(Command::Paste);
                        r.push(Command::ToggleDetail(false));
                        r.push(Command::ToggleDetail(true));
                        r.push(
                            Command::SetOption(
                                "margin".to_owned(),
                                if self.table_margin == 1 {
                                    "0".to_owned()
                                } else {
                                    "1".to_owned()
                                },
                            ),
                        );
                        r.push(
                            Command::SetOption(
                                "minimized".to_owned(),
                                bool_to_string(!self.state.minimized),
                            ),
                        );
                        r.push(
                            Command::SetOption(
                                "colored".to_owned(),
                                bool_to_string(!self.state.colored),
                            ),
                        );
                        r.push(mode_switch);
                        r.push(Command::Quit);
                    },
                    Option::None => {
                        r.push(Command::ExportKeys(k, Vec::new()));
                        r.push(Command::GenerateKey);
                        r.push(
                            Command::SetOption(
                                "armor".to_owned(),
                                bool_to_string(!self.config.armor),
                            ),
                        );
                        r.push(Command::Paste);
                        r.push(Command::ToggleDetail(true));
                        r.push(
                            Command::SetOption(
                                "margin".to_owned(),
                                if self.table_margin == 1 {
                                    "0".to_owned()
                                } else {
                                    "1".to_owned()
                                },
                            ),
                        );
                        r.push(
                            Command::SetOption(
                                "minimized".to_owned(),
                                bool_to_string(!self.state.minimized),
                            ),
                        );
                        r.push(
                            Command::SetOption(
                                "colored".to_owned(),
                                bool_to_string(!self.state.colored),
                            ),
                        );
                        r.push(mode_switch);
                        r.push(Command::Quit);
                    },
                }
            },
        }
        r
    }

    /// The status text shown when the prompt is empty: the active
    /// tab, and the selection position within the record table.
    pub fn status_text(&self) -> (r: String)
        requires
            self.wf(),
        ensures
            self.tab is Help ==> r@ == "help"@,
            self.tab matches Tab::Records(k) ==> if self.records.items@.len() == 0 {
                r@ == "list "@ + k.label_spec()
            } else {
                r@ == "list "@ + k.label_spec() + " ("@ + dec_str(
                    (self.records.cursor_index() + 1) as nat,
                ) + "/"@ + dec_str(self.records.items@.len() as nat) + ")"@
            },
    {
        match self.tab {
            Tab::Help => "help".to_owned(),
            Tab::Records(k) => {
                let mut s = "list ".to_owned();
                s.append(k.label().as_str());
                if self.records.items.len() > 0 {
                    let position: u64 = match self.records.cursor {
                        Option::Some(i) => (i as u64) + 1,
                        Option::None => 1,
                    };
                    s.append(" (");
                    s.append(u64_to_string(position).as_str());
                    s.append("/");
                    s.append(u64_to_string(self.records.items.len() as u64).as_str());
                    s.append(")");
                }
                s
            },
        }
    }

    /// Clears a pending confirmation and runs a navigation or view
    /// command: quitting, tab movement, the options overlay, and
    /// scrolling. Returns the action to perform (none here) and
    /// whether the overlay stays visible.
    fn run_view_command(&mut self, cmd: Command, now: u64) -> (r: (Option<Action>, bool))
        requires
            old(self).wf(),
        ensures
            final(self).wf(),
            final(self).prompt.pending is None,
            r.0 is None,
            final(self).state.show_options == old(self).state.show_options,
            r.1 == (cmd is ShowOptions || (cmd matches Command::Scroll(d1, in_row1) && !in_row1
                && old(self).state.show_options)),
            cmd is Quit ==> !final(self).state.running,
            !(cmd is Quit) ==> final(self).state.running == old(self).state.running,
            cmd is Quit ==> final(self).records == old(self).records,
            cmd is ShowHelp ==> (final(self).tab == Tab::Help && final(self).records == old(self).records),
            cmd matches Command::ListKeys(k) ==> (final(self).tab == Tab::Records(k) && recs_of(
                final(self).records.default_items@,
            ) == recs_of(
                if k == KeyKind::Public {
                    if old(self).tab == Tab::Records(KeyKind::Public) {
                        old(self).records.default_items@
                    } else {
                        old(self).public_records@
                    }
                } else {
                    if old(self).tab == Tab::Records(KeyKind::Secret) {
                        old(self).records.default_items@
                    } else {
                        old(self).secret_records@
                    }
                },
            )),
            cmd is NextTab ==> final(self).tab == old(self).tab.next_spec(),
            cmd is PreviousTab ==> final(self).tab == old(self).tab.previous_spec(),
            cmd is ShowOptions ==> (options_built(
                final(self).options.items@,
                old(self).tab,
                selected_id(old(self).records),
                old(self).config.armor,
                old(self).table_margin,
                old(self).state.minimized,
                old(self).state.colored,
                old(self).mode,
            ) && final(self).records == old(self).records && final(self).tab == old(self).tab
                && final(self).mode == old(self).mode && final(self).config == old(self).config
                && final(self).table_margin == old(self).table_margin && final(self).detail_level
                == old(self).detail_level && final(self).state.minimized == old(self).state.minimized && final(self).state.colored == old(self).state.colored && final(self).state.color == old(self).state.color),
            cmd is ShowOptions ==> ((old(self).options.items@.len() == 0 || final(self).options.items@.len() == old(self).options.items@.len()) ==> final(self).options.cursor == (match old(self).options.cursor {
                Option::Some(p) => Option::Some(p),
                Option::None => Option::Some(0usize),
            })),
            cmd is ShowOptions ==> (!(old(self).options.items@.len() == 0 || final(self).options.items@.len() == old(self).options.items@.len()) ==> final(self).options.cursor == Option::Some(0usize)),
            cmd matches Command::Scroll(d0, in_row0) ==> (final(self).records.items == old(self).records.items && final(self).records.default_items == old(self).records.default_items && final(self).options.items == old(self).options.items
                && final(self).help_entries.items == old(self).help_entries.items && final(self).tab == old(self).tab && final(self).mode == old(self).mode && final(self).config
                == old(self).config),
            cmd matches Command::Scroll(d, in_row) ==> (in_row ==> (final(self).records.cursor
                == old(self).records.cursor && final(self).records.scroll == (match d {
                ScrollDirection::Down(n) => if old(self).records.scroll + n > old(self).records.max_scroll {
                    old(self).records.max_scroll as int
                } else {
                    old(self).records.scroll + n
                },
                ScrollDirection::Up(n) => crate::container::step_back(
                    old(self).records.scroll as nat,
                    n as nat,
                ) as int,
                ScrollDirection::Top => 0,
                ScrollDirection::Bottom => old(self).records.max_scroll as int,
            }))),
            cmd matches Command::Scroll(d, in_row) ==> (!in_row ==> ({
                &&& (!old(self).state.show_options && !(old(self).tab is Help) && old(self).records.items@.len() > 0 ==> final(self).records.cursor == Option::Some(
                    (match d {
                        ScrollDirection::Down(_) => crate::container::step_fwd(
                            old(self).records.cursor_index(),
                            1,
                            old(self).records.items@.len(),
                        ),
                        ScrollDirection::Up(_) => crate::container::step_back(
                            old(self).records.cursor_index(),
                            1,
                        ),
                        ScrollDirection::Top => 0,
                        ScrollDirection::Bottom => (old(self).records.items@.len() - 1) as nat,
                    }) as usize,
                ))
                &&& (old(self).state.show_options && old(self).options.items@.len() > 0 ==> final(self).options.cursor == Option::Some(
                    (match d {
                        ScrollDirection::Down(_) => crate::container::step_fwd(
                            old(self).options.cursor_index(),
                            1,
                            old(self).options.items@.len(),
                        ),
                        ScrollDirection::Up(_) => crate::container::step_back(
                            old(self).options.cursor_index(),
                            1,
                        ),
                        ScrollDirection::Top => 0,
                        ScrollDirection::Bottom => (old(self).options.items@.len() - 1) as nat,
                    }) as usize,
                ))
                &&& (!old(self).state.show_options && old(self).tab is Help && old(self).help_entries.items@.len() > 0 ==> final(self).help_entries.cursor
                    == Option::Some(
                    (match d {
                        ScrollDirection::Down(_) => crate::container::step_fwd(
                            old(self).help_entries.cursor_index(),
                            1,
                            old(self).help_entries.items@.len(),
                        ),
                        ScrollDirection::Up(_) => crate::container::step_back(
                            old(self).help_entries.cursor_index(),
                            1,
                        ),
                        ScrollDirection::Top => 0,
                        ScrollDirection::Bottom => (old(self).help_entries.items@.len()
                            - 1) as nat,
                    }) as usize,
                ))
            })),
    {
        if matches!(self.prompt.pending, Option::Some(_)) {
            self.prompt.clear();
        }
        let mut keep_options = false;
        match cmd {
            Command::Quit => {
                self.state.running = false;
            },
            Command::ShowHelp => {
                self.show_help();
            },
            Command::ShowOptions => {
                self.show_options_cmd();
                keep_options = true;
            },
            Command::ListKeys(kind) => {
                self.list_keys(kind);
            },
            Command::Scroll(direction, in_row) => {
                if in_row {
                    self.scroll_row(direction);
                } else {
                    keep_options = self.scroll_nav(direction);
                }
            },
            Command::NextTab => {
                match self.tab.next() {
                    Tab::Records(k) => self.list_keys(k),
                    Tab::Help => self.show_help(),
                }
            },
            Command::PreviousTab => {
                match self.tab.previous() {
                    Tab::Records(k) => self.list_keys(k),
                    Tab::Help => self.show_help(),
                }
            },
            _ => {},
        }
        (None, keep_options)
    }

    /// Clears a pending confirmation and runs a command that reads or
    /// sets a value: options, mode, detail level, copy and paste, the
    /// prompt, and the search.
    fn run_value_command(&mut self, cmd: Command, now: u64) -> (r: (Option<Action>, bool))
        requires
            old(self).wf(),
        ensures
            final(self).wf(),
            final(self).prompt.pending is None,
            r.1 == false,
            final(self).state.show_options == old(self).state.show_options,
            final(self).state.running == old(self).state.running,
            (r.0 matches Some(act) ==> (act is ClipboardSet || act is FetchRecordMaterial
                || act is ClipboardGet || act is CheckOutputDir)),
            cmd matches Command::ToggleDetail(all) ==> (r.0 is None && (if all {
                &&& final(self).detail_level == old(self).detail_level.next_up()
                &&& recs_of(final(self).records.items@) == recs_of(
                    old(self).records.items@,
                ).map_values(
                    (|rec: RecordData| (RecordData {
                        detail: old(self).detail_level.next_up(),
                        ..rec
                    })),
                )
                &&& recs_of(final(self).records.default_items@) == recs_of(
                    old(self).records.default_items@,
                ).map_values(
                    (|rec: RecordData| (RecordData {
                        detail: old(self).detail_level.next_up(),
                        ..rec
                    })),
                )
            } else {
                &&& final(self).detail_level == old(self).detail_level
                &&& (old(self).records.cursor is None ==> final(self).records == old(self).records)
                &&& (old(self).records.cursor matches Some(i) ==> recs_of(
                    final(self).records.items@,
                )[i as int].detail == recs_of(
                    old(self).records.items@,
                )[i as int].detail.next_up())
            }) && final(self).records.cursor == old(self).records.cursor),
            cmd matches Command::SetOption(o, v) ==> (if o@ == "prompt"@ && v@.len() > 0 && (v@[0]
                == crate::prompt::command_prefix() || v@[0] == crate::prompt::search_prefix()) {
                r.0 is None && final(self).prompt.text == v && final(self).records == old(self).records && final(self).config == old(self).config && final(self).mode == old(self).mode && final(self).tab == old(self).tab
            } else {
                set_option_outcome(*old(self), *final(self), o@, v@, r.0)
            }),
            cmd matches Command::GetOption(o) ==> (r.0 is None && get_option_outcome(
                *old(self),
                *final(self),
                o@,
            )),
            cmd matches Command::CopyText(kind) ==> copy_outcome(
                *old(self),
                *final(self),
                kind,
                r.0,
            ),
            cmd matches Command::SwitchMode(m) ==> (r.0 is None && (if m == Mode::Copying && old(self).records.items@.len() == 0 {
                final(self).mode == old(self).mode && final(self).records == old(self).records
            } else {
                final(self).mode == m && final(self).prompt.output_kind == OutputKind::Action
                    && final(self).prompt.text@ == m.label_spec()
            })),
            cmd is Paste ==> ((old(self).clipboard_available ==> r.0 == Some(
                Action::ClipboardGet,
            )) && (!old(self).clipboard_available ==> (r.0 is None && final(self).prompt.output_kind == OutputKind::Failure && final(self).prompt.text@
                == "clipboard not available"@))),
            cmd is EnableInput ==> (r.0 is None && final(self).prompt.text@ == seq![
                crate::prompt::command_prefix(),
            ]),
            cmd matches Command::SearchRecords(seed) ==> (r.0 is None && final(self).prompt.is_search_entry() && final(self).prompt.search_query_spec() == (match seed {
                Option::Some(q) => q@,
                Option::None => Seq::<char>::empty(),
            }) && recs_of(final(self).records.items@) == recs_of(
                old(self).records.default_items@,
            ) && final(self).records.default_items == old(self).records.default_items),
            cmd matches Command::ShowOutput(kind, msg) ==> (r.0 is None && final(self).prompt.text
                == msg && final(self).prompt.output_kind == kind),
    {
        if matches!(self.prompt.pending, Option::Some(_)) {
            self.prompt.clear();
        }
        let mut action: Option<Action> = None;
        match cmd {
            Command::ShowOutput(kind, message) => {
                self.prompt.set_output(kind, message, now);
            },
            Command::ToggleDetail(all) => {
                self.toggle_detail(all);
            },
            Command::SetOption(option, value) => {
                let seeds_prompt = crate::strutil::str_eq(option.as_str(), "prompt") && (
                value.as_str().unicode_len() > 0 && {
                    let c = value.as_str().get_char(0);
                    c == ':' || c == '/'
                });
                if seeds_prompt {
                    self.prompt.seed_text(value);
                } else {
                    action = self.set_option(option.as_str(), value.as_str(), now);
                    proof {
                        reveal(set_option_outcome);
                    }
                }
            },
            Command::GetOption(option) => {
                self.get_option(option.as_str(), now);
                proof {
                    reveal(get_option_outcome);
                }
            },
            Command::SwitchMode(m) => {
                self.switch_mode(m, now);
            },
            Command::CopyText(kind) => {
                action = self.copy_text(kind, now);
                proof {
                    reveal(copy_outcome);
                }
            },
            Command::Paste => {
                action = self.paste(now);
            },
            Command::EnableInput => {
                self.prompt.enable_command_entry();
            },
            Command::SearchRecords(seed) => {
                self.search(seed);
            },
            _ => {},
        }
        (action, false)
    }

    /// Clears a pending confirmation and turns an engine-backed
    /// command into exactly its action; nothing else moves until the
    /// outcome comes back through an `apply_*` method.
    fn run_engine_command(&mut self, cmd: Command, now: u64) -> (r: (Option<Action>, bool))
        requires
            old(self).wf(),
        ensures
            final(self).wf(),
            final(self).prompt.pending is None,
            r.1 == false,
            final(self).state.show_options == old(self).state.show_options,
            final(self).state.running == old(self).state.running,
            (match r.0 {
                Option::Some(Action::DeleteRecord(_, _)) => cmd matches Command::DeleteKey(_, _),
                Option::Some(Action::SendRecord(_)) => cmd matches Command::SendKey(_),
                Option::Some(Action::ImportRecords(_)) => cmd matches Command::ImportKeys(
                    _,
                    false,
                ),
                _ => true,
            }),
            cmd matches Command::ExportKeys(k, ps) ==> r.0 == Some(Action::ExportRecords(k, ps)),
            cmd matches Command::DeleteKey(k, id) ==> r.0 == Some(Action::DeleteRecord(k, id)),
            cmd matches Command::SendKey(id) ==> r.0 == Some(Action::SendRecord(id)),
            cmd matches Command::ImportKeys(files, receive) ==> (if receive {
                r.0 == Some(Action::RunProgram(ProgramOp::ReceiveKeys(files)))
            } else if files@.len() == 0 {
                r.0 is None && final(self).prompt.output_kind == OutputKind::Failure && final(self).prompt.text@ == "no files given"@
            } else {
                r.0 == Some(Action::ImportRecords(files))
            }),
            cmd is GenerateKey ==> r.0 == Some(Action::RunProgram(ProgramOp::GenerateKey)),
            cmd is RefreshKeys ==> r.0 == Some(Action::RunProgram(ProgramOp::RefreshKeys)),
            cmd matches Command::EditKey(id) ==> r.0 == Some(
                Action::RunProgram(ProgramOp::EditKey(id)),
            ),
            cmd matches Command::SignKey(id) ==> (r.0 matches Some(act) && (
            act matches Action::RunProgram(op) && (op matches ProgramOp::SignKey(id2, dk) && id2
                == id && dk == old(self).config.default_key))),
            cmd is Refresh ==> r.0 == Some(Action::FetchAllRecords),
            final(self).records == old(self).records,
            final(self).tab == old(self).tab,
            final(self).mode == old(self).mode,
            final(self).config == old(self).config,
            final(self).public_records == old(self).public_records,
            final(self).secret_records == old(self).secret_records,
            final(self).saved_public == old(self).saved_public,
            final(self).saved_secret == old(self).saved_secret,
    {
        if matches!(self.prompt.pending, Option::Some(_)) {
            self.prompt.clear();
        }
        let mut action: Option<Action> = None;
        match cmd {
            Command::ImportKeys(files, receive) => {
                if receive {
                    action = Some(Action::RunProgram(ProgramOp::ReceiveKeys(files)));
                } else if files.len() == 0 {
                    self.prompt.set_output(
                        OutputKind::Failure,
                        "no files given".to_owned(),
                        now,
                    );
                } else {
                    action = Some(Action::ImportRecords(files));
                }
            },
            Command::ExportKeys(kind, patterns) => {
                action = Some(Action::ExportRecords(kind, patterns));
            },
            Command::DeleteKey(kind, id) => {
                action = Some(Action::DeleteRecord(kind, id));
            },
            Command::SendKey(id) => {
                action = Some(Action::SendRecord(id));
            },
            Command::GenerateKey => {
                action = Some(Action::RunProgram(ProgramOp::GenerateKey));
            },
            Command::RefreshKeys => {
                action = Some(Action::RunProgram(ProgramOp::RefreshKeys));
            },
            Command::EditKey(id) => {
                action = Some(Action::RunProgram(ProgramOp::EditKey(id)));
            },
            Command::SignKey(id) => {
                let default_key = match &self.config.default_key {
                    Option::Some(k) => Option::Some(k.clone()),
                    Option::None => Option::None,
                };
                action = Some(Action::RunProgram(ProgramOp::SignKey(id, default_key)));
            },
            Command::Refresh => {
                action = Some(Action::FetchAllRecords);
            },
            _ => {},
        }
        (action, false)
    }

    /// Runs one command to completion. A `Confirm` wrapper only
    /// stashes its inner command and shows it; any other command
    /// first discards a pending confirmation, so nothing is ever
    /// deleted or sent without an explicit, repeated order. Engine,
    /// subprocess and clipboard work is returned as an [`Action`];
    /// its outcome comes back through the matching `apply_*` method.
    #[verifier::rlimit(100)]
    #[verifier::spinoff_prover]
    pub fn run_command(&mut self, cmd: Command, now: u64) -> (a: Option<Action>)
        requires
            old(self).wf(),
        ensures
            final(self).wf(),
            // a pending confirmation exists after this call exactly
            // when this command was the confirmation wrapper
            (match cmd {
                Command::Confirm(_) => final(self).prompt.pending is Some,
                _ => final(self).prompt.pending is None,
            }),
            cmd matches Command::Confirm(inner) ==> (a is None && final(self).prompt.pending
                == Some(*inner) && final(self).records == old(self).records && final(self).tab
                == old(self).tab && final(self).mode == old(self).mode && final(self).prompt.text@ == cmd.label_spec()),
            // destructive engine work arises only from its own command
            (match a {
                Option::Some(Action::DeleteRecord(_, _)) => cmd matches Command::DeleteKey(_, _),
                Option::Some(Action::SendRecord(_)) => cmd matches Command::SendKey(_),
                Option::Some(Action::ImportRecords(_)) => cmd matches Command::ImportKeys(
                    _,
                    false,
                ),
                _ => true,
            }),
            cmd is Quit ==> (!final(self).state.running && a is None),
            cmd is Noop ==> a is None,
            !(cmd is Quit) ==> final(self).state.running == old(self).state.running,
            // the overlay stays up only when it was asked for, or a
            // navigation command moved within it
            final(self).state.show_options <==> (cmd is ShowOptions || (cmd matches Command::Scroll(d, in_row) && !in_row && old(self).state.show_options)),
            // the overlay is a pure function of the state (with its
            // cursor kept for an unchanged list)
            cmd is ShowOptions ==> options_built(
                final(self).options.items@,
                old(self).tab,
                selected_id(old(self).records),
                old(self).config.armor,
                old(self).table_margin,
                old(self).state.minimized,
                old(self).state.colored,
                old(self).mode,
            ),
            cmd is ShowOptions ==> ((old(self).options.items@.len() == 0 || final(self).options.items@.len() == old(self).options.items@.len()) ==> final(self).options.cursor == (match old(self).options.cursor {
                Option::Some(p) => Option::Some(p),
                Option::None => Option::Some(0usize),
            })),
            cmd is ShowOptions ==> (!(old(self).options.items@.len() == 0 || final(self).options.items@.len() == old(self).options.items@.len()) ==> final(self).options.cursor == Option::Some(0usize)),
            // the detail toggle saturates at the top level, and the
            // records follow the level exactly
            cmd matches Command::ToggleDetail(all) ==> (a is None && (if all {
                &&& final(self).detail_level == old(self).detail_level.next_up()
                &&& recs_of(final(self).records.items@) == recs_of(
                    old(self).records.items@,
                ).map_values(
                    (|r: RecordData| (RecordData {
                        detail: old(self).detail_level.next_up(),
                        ..r
                    })),
                )
                &&& recs_of(final(self).records.default_items@) == recs_of(
                    old(self).records.default_items@,
                ).map_values(
                    (|r: RecordData| (RecordData {
                        detail: old(self).detail_level.next_up(),
                        ..r
                    })),
                )
            } else {
                &&& final(self).detail_level == old(self).detail_level
                &&& (old(self).records.cursor is None ==> final(self).records == old(self).records)
                &&& (old(self).records.cursor matches Some(i) ==> recs_of(
                    final(self).records.items@,
                )[i as int].detail == recs_of(
                    old(self).records.items@,
                )[i as int].detail.next_up())
            }) && final(self).records.cursor == old(self).records.cursor),
            cmd is Quit ==> final(self).records == old(self).records,
            // navigation never changes what is listed, and the
            // addressed cursor lands exactly where the bounded move
            // says
            cmd matches Command::Scroll(d0, in_row0) ==> (a is None && final(self).records.items
                == old(self).records.items && final(self).records.default_items == old(self).records.default_items && final(self).options.items == old(self).options.items
                && final(self).help_entries.items == old(self).help_entries.items && final(self).tab == old(self).tab && final(self).mode == old(self).mode && final(self).config
                == old(self).config),
            cmd matches Command::Scroll(d, in_row) ==> (in_row ==> (final(self).records.cursor
                == old(self).records.cursor && final(self).records.scroll == (match d {
                ScrollDirection::Down(n) => if old(self).records.scroll + n > old(self).records.max_scroll {
                    old(self).records.max_scroll as int
                } else {
                    old(self).records.scroll + n
                },
                ScrollDirection::Up(n) => crate::container::step_back(
                    old(self).records.scroll as nat,
                    n as nat,
                ) as int,
                ScrollDirection::Top => 0,
                ScrollDirection::Bottom => old(self).records.max_scroll as int,
            }))),
            cmd matches Command::Scroll(d, in_row) ==> (!in_row ==> ({
                &&& (!old(self).state.show_options && !(old(self).tab is Help) && old(self).records.items@.len() > 0 ==> final(self).records.cursor == Option::Some(
                    (match d {
                        ScrollDirection::Down(_) => crate::container::step_fwd(
                            old(self).records.cursor_index(),
                            1,
                            old(self).records.items@.len(),
                        ),
                        ScrollDirection::Up(_) => crate::container::step_back(
                            old(self).records.cursor_index(),
                            1,
                        ),
                        ScrollDirection::Top => 0,
                        ScrollDirection::Bottom => (old(self).records.items@.len() - 1) as nat,
                    }) as usize,
                ))
                &&& (old(self).state.show_options && old(self).options.items@.len() > 0 ==> final(self).options.cursor == Option::Some(
                    (match d {
                        ScrollDirection::Down(_) => crate::container::step_fwd(
                            old(self).options.cursor_index(),
                            1,
                            old(self).options.items@.len(),
                        ),
                        ScrollDirection::Up(_) => crate::container::step_back(
                            old(self).options.cursor_index(),
                            1,
                        ),
                        ScrollDirection::Top => 0,
                        ScrollDirection::Bottom => (old(self).options.items@.len() - 1) as nat,
                    }) as usize,
                ))
                &&& (!old(self).state.show_options && old(self).tab is Help && old(self).help_entries.items@.len() > 0 ==> final(self).help_entries.cursor
                    == Option::Some(
                    (match d {
                        ScrollDirection::Down(_) => crate::container::step_fwd(
                            old(self).help_entries.cursor_index(),
                            1,
                            old(self).help_entries.items@.len(),
                        ),
                        ScrollDirection::Up(_) => crate::container::step_back(
                            old(self).help_entries.cursor_index(),
                            1,
                        ),
                        ScrollDirection::Top => 0,
                        ScrollDirection::Bottom => (old(self).help_entries.items@.len()
                            - 1) as nat,
                    }) as usize,
                ))
            })),
            // options and option values: the shared outcome
            // predicates hold at the dispatcher too
            cmd matches Command::SetOption(o, v) ==> (if o@ == "prompt"@ && v@.len() > 0 && (v@[0]
                == crate::prompt::command_prefix() || v@[0] == crate::prompt::search_prefix()) {
                a is None && final(self).prompt.text == v && final(self).records == old(self).records && final(self).config == old(self).config && final(self).mode == old(self).mode && final(self).tab == old(self).tab
            } else {
                set_option_outcome(*old(self), *final(self), o@, v@, a)
            }),
            cmd matches Command::GetOption(o) ==> (a is None && get_option_outcome(
                *old(self),
                *final(self),
                o@,
            )),
            cmd matches Command::CopyText(kind) ==> copy_outcome(
                *old(self),
                *final(self),
                kind,
                a,
            ),
            // mode switches are refused into the copy mode on an
            // empty table
            cmd matches Command::SwitchMode(m) ==> (a is None && (if m == Mode::Copying && old(self).records.items@.len() == 0 {
                final(self).mode == old(self).mode && final(self).records == old(self).records
            } else {
                final(self).mode == m && final(self).prompt.output_kind == OutputKind::Action
                    && final(self).prompt.text@ == m.label_spec()
            })),
            cmd is Paste ==> ((old(self).clipboard_available ==> a == Some(Action::ClipboardGet))
                && (!old(self).clipboard_available ==> (a is None && final(self).prompt.output_kind == OutputKind::Failure && final(self).prompt.text@
                == "clipboard not available"@))),
            cmd is EnableInput ==> (a is None && final(self).prompt.text@ == seq![
                crate::prompt::command_prefix(),
            ]),
            cmd matches Command::SearchRecords(seed) ==> (a is None && final(self).prompt.is_search_entry() && final(self).prompt.search_query_spec() == (match seed {
                Option::Some(q) => q@,
                Option::None => Seq::<char>::empty(),
            }) && recs_of(final(self).records.items@) == recs_of(
                old(self).records.default_items@,
            ) && final(self).records.default_items == old(self).records.default_items),
            cmd matches Command::ShowOutput(kind, msg) ==> (a is None && final(self).prompt.text
                == msg && final(self).prompt.output_kind == kind),
            // tab movement
            cmd is ShowHelp ==> (a is None && final(self).tab == Tab::Help && final(self).records
                == old(self).records),
            cmd matches Command::ListKeys(k) ==> (a is None && final(self).tab == Tab::Records(k)
                && recs_of(final(self).records.default_items@) == recs_of(
                if k == KeyKind::Public {
                    if old(self).tab == Tab::Records(KeyKind::Public) {
                        old(self).records.default_items@
                    } else {
                        old(self).public_records@
                    }
                } else {
                    if old(self).tab == Tab::Records(KeyKind::Secret) {
                        old(self).records.default_items@
                    } else {
                        old(self).secret_records@
                    }
                },
            )),
            cmd is NextTab ==> (a is None && final(self).tab == old(self).tab.next_spec()),
            cmd is PreviousTab ==> (a is None && final(self).tab == old(self).tab.previous_spec()),
            // the overlay is rebuilt from an otherwise untouched
            // state: two consecutive opens see the same inputs
            cmd is ShowOptions ==> (a is None && final(self).records == old(self).records && final(self).tab == old(self).tab && final(self).mode == old(self).mode && final(self).config
                == old(self).config && final(self).table_margin == old(self).table_margin
                && final(self).detail_level == old(self).detail_level && final(self).state.minimized == old(self).state.minimized && final(self).state.colored == old(self).state.colored && final(self).state.color == old(self).state.color),
            // every engine command yields exactly its action, and
            // touches nothing until the outcome comes back
            cmd matches Command::ExportKeys(k, ps) ==> a == Some(Action::ExportRecords(k, ps)),
            cmd matches Command::DeleteKey(k, id) ==> a == Some(Action::DeleteRecord(k, id)),
            cmd matches Command::SendKey(id) ==> a == Some(Action::SendRecord(id)),
            cmd matches Command::ImportKeys(files, receive) ==> (if receive {
                a == Some(Action::RunProgram(ProgramOp::ReceiveKeys(files)))
            } else if files@.len() == 0 {
                a is None && final(self).prompt.output_kind == OutputKind::Failure && final(self).prompt.text@ == "no files given"@
            } else {
                a == Some(Action::ImportRecords(files))
            }),
            cmd is GenerateKey ==> a == Some(Action::RunProgram(ProgramOp::GenerateKey)),
            cmd is RefreshKeys ==> a == Some(Action::RunProgram(ProgramOp::RefreshKeys)),
            cmd matches Command::EditKey(id) ==> a == Some(
                Action::RunProgram(ProgramOp::EditKey(id)),
            ),
            cmd matches Command::SignKey(id) ==> (a matches Some(act) && (
            act matches Action::RunProgram(op) && (op matches ProgramOp::SignKey(id2, dk) && id2
                == id && dk == old(self).config.default_key))),
            cmd is Refresh ==> a == Some(Action::FetchAllRecords),
            (cmd matches Command::ExportKeys(_, _) || cmd matches Command::DeleteKey(_, _)
                || cmd matches Command::SendKey(_) || cmd is GenerateKey || cmd is RefreshKeys || (
            cmd matches Command::EditKey(_)) || (cmd matches Command::SignKey(_)) || cmd is Refresh
                || (cmd matches Command::ImportKeys(_, _))) ==> (final(self).records == old(self).records && final(self).tab == old(self).tab && final(self).mode == old(self).mode
                && final(self).config == old(self).config && final(self).public_records == old(self).public_records && final(self).secret_records == old(self).secret_records && final(self).saved_public == old(self).saved_public && final(self).saved_secret == old(self).saved_secret),
    {
        let is_confirm = match &cmd {
            Command::Confirm(_) => true,
            _ => false,
        };
        if is_confirm {
            if let Command::Confirm(inner) = cmd {
                let mut display = "confirm ".to_owned();
                display.append(inner.label().as_str());
                self.prompt.set_pending(*inner, display, now);
            }
            self.state.show_options = false;
            return None;
        }
        let group: u8 = match &cmd {
            Command::Noop | Command::Quit | Command::ShowHelp | Command::ShowOptions
            | Command::ListKeys(_) | Command::NextTab | Command::PreviousTab
            | Command::Scroll(_, _) => 0,
            Command::SetOption(_, _) | Command::GetOption(_) | Command::SwitchMode(_)
            | Command::ToggleDetail(_) | Command::CopyText(_) | Command::Paste
            | Command::EnableInput | Command::SearchRecords(_) | Command::ShowOutput(_, _) => 1,
            _ => 2,
        };
        let outcome = if group == 0 {
            self.run_view_command(cmd, now)
        } else if group == 1 {
            let value_outcome = self.run_value_command(cmd, now);
            proof {
                reveal(set_option_outcome);
                reveal(get_option_outcome);
                reveal(copy_outcome);
            }
            value_outcome
        } else {
            self.run_engine_command(cmd, now)
        };
        let (action, keep_options) = outcome;
        self.state.show_options = keep_options;
        action
    }

    /// Closes the prompt when input is abandoned or submitted: the
    /// buffer is cleared, and leaving search mode restores the
    /// unfiltered records unconditionally — search state is not
    /// remembered across mode exits.
    pub fn close_input(&mut self)
        requires
            old(self).wf(),
        ensures
            final(self).wf(),
            final(self).prompt.text@.len() == 0,
            final(self).prompt.pending is None,
            final(self).prompt.output_kind == OutputKind::Neutral,
            final(self).tab == old(self).tab,
            final(self).mode == old(self).mode,
            final(self).state == old(self).state,
            final(self).config == old(self).config,
            final(self).records.default_items == old(self).records.default_items,
            old(self).prompt.is_search_entry() ==> recs_of(final(self).records.items@) == recs_of(
                old(self).records.default_items@,
            ),
            !old(self).prompt.is_search_entry() ==> final(self).records == old(self).records,
    {
        let was_search = self.prompt.text.as_str().unicode_len() > 0 && self.prompt.text.as_str().get_char(0) == '/';
        if was_search {
            self.records.clear_filter();
        }
        self.prompt.clear();
    }

    /// Takes a failed category listing: the failure is reported
    /// verbatim and every table, list and setting stays exactly as it
    /// was — no partial refresh.
    pub fn apply_listing_failure(&mut self, error: String, now: u64)
        requires
            old(self).wf(),
        ensures
            final(self).wf(),
            final(self).records == old(self).records,
            final(self).tab == old(self).tab,
            final(self).mode == old(self).mode,
            final(self).config == old(self).config,
            final(self).state == old(self).state,
            final(self).public_records == old(self).public_records,
            final(self).secret_records == old(self).secret_records,
            final(self).saved_public == old(self).saved_public,
            final(self).saved_secret == old(self).saved_secret,
            final(self).detail_level == old(self).detail_level,
            final(self).table_margin == old(self).table_margin,
            final(self).options == old(self).options,
            final(self).prompt.pending == old(self).prompt.pending,
            final(self).staged_output is None,
            final(self).prompt.output_kind == OutputKind::Failure,
            final(self).prompt.text@ == "refresh error: "@ + error@,
    {
        self.staged_output = Option::None;
        let mut msg = "refresh error: ".to_owned();
        msg.append(error.as_str());
        self.prompt.set_output(OutputKind::Failure, msg, now);
    }

    /// Begins a full refresh: the caller fetches every category from
    /// the engine and completes it through
    /// [`App::apply_record_listing`].
    pub fn refresh(&self) -> (a: Action)
        ensures
            a is FetchAllRecords,
    {
        Action::FetchAllRecords
    }

    /// Takes the outcome of an import: a success stages the count
    /// message and asks for a full refresh; a failure reports the
    /// engine's error verbatim and changes nothing else.
    pub fn apply_import_result(&mut self, outcome: Result<usize, String>, now: u64) -> (a: Option<
        Action,
    >)
        requires
            old(self).wf(),
        ensures
            final(self).wf(),
            final(self).tab == old(self).tab,
            final(self).mode == old(self).mode,
            final(self).state == old(self).state,
            final(self).config == old(self).config,
            final(self).public_records == old(self).public_records,
            final(self).secret_records == old(self).secret_records,
            final(self).saved_public == old(self).saved_public,
            final(self).saved_secret == old(self).saved_secret,
            final(self).records == old(self).records,
            final(self).prompt.pending == old(self).prompt.pending,
            outcome matches Ok(n) ==> (a == Some(Action::FetchAllRecords) && (final(self).staged_output matches Some((k, msg)) && k == OutputKind::Success && msg@ == dec_str(
                n as nat,
            ) + " keys imported"@)),
            outcome matches Err(e) ==> (a is None && final(self).prompt.output_kind
                == OutputKind::Failure && final(self).prompt.text@ == "import error: "@ + e@),
    {
        match outcome {
            Result::Ok(n) => {
                let mut msg = u64_to_string(n as u64);
                msg.append(" keys imported");
                self.staged_output = Option::Some((OutputKind::Success, msg));
                Some(Action::FetchAllRecords)
            },
            Result::Err(e) => {
                let mut msg = "import error: ".to_owned();
                msg.append(e.as_str());
                self.prompt.set_output(OutputKind::Failure, msg, now);
                None
            },
        }
    }

    /// Takes the outcome of an export: the path written, or the
    /// engine's error, shown verbatim.
    pub fn apply_export_result(&mut self, outcome: Result<String, String>, now: u64)
        requires
            old(self).wf(),
        ensures
            final(self).wf(),
            final(self).tab == old(self).tab,
            final(self).mode == old(self).mode,
            final(self).state == old(self).state,
            final(self).config == old(self).config,
            final(self).public_records == old(self).public_records,
            final(self).secret_records == old(self).secret_records,
            final(self).saved_public == old(self).saved_public,
            final(self).saved_secret == old(self).saved_secret,
            final(self).records == old(self).records,
            final(self).prompt.pending == old(self).prompt.pending,
            outcome matches Ok(path) ==> (final(self).prompt.output_kind == OutputKind::Success
                && final(self).prompt.text@ == "export: "@ + path@),
            outcome matches Err(e) ==> (final(self).prompt.output_kind == OutputKind::Failure
                && final(self).prompt.text@ == "export error: "@ + e@),
    {
        match outcome {
            Result::Ok(path) => {
                let mut msg = "export: ".to_owned();
                msg.append(path.as_str());
                self.prompt.set_output(OutputKind::Success, msg, now);
            },
            Result::Err(e) => {
                let mut msg = "export error: ".to_owned();
                msg.append(e.as_str());
                self.prompt.set_output(OutputKind::Failure, msg, now);
            },
        }
    }

    /// Takes the outcome of a delete: a success asks for a full
    /// refresh; a failure reports the engine's error and leaves every
    /// table as it was.
    pub fn apply_delete_result(&mut self, outcome: Result<(), String>, now: u64) -> (a: Option<
        Action,
    >)
        requires
            old(self).wf(),
        ensures
            final(self).wf(),
            final(self).tab == old(self).tab,
            final(self).mode == old(self).mode,
            final(self).state == old(self).state,
            final(self).config == old(self).config,
            final(self).public_records == old(self).public_records,
            final(self).secret_records == old(self).secret_records,
            final(self).saved_public == old(self).saved_public,
            final(self).saved_secret == old(self).saved_secret,
            final(self).records == old(self).records,
            final(self).prompt.pending == old(self).prompt.pending,
            outcome is Ok ==> (a == Some(Action::FetchAllRecords) && *final(self) == *old(self)),
            outcome matches Err(e) ==> (a is None && final(self).prompt.output_kind
                == OutputKind::Failure && final(self).prompt.text@ == "delete error: "@ + e@),
    {
        match outcome {
            Result::Ok(_) => Some(Action::FetchAllRecords),
            Result::Err(e) => {
                let mut msg = "delete error: ".to_owned();
                msg.append(e.as_str());
                self.prompt.set_output(OutputKind::Failure, msg, now);
                None
            },
        }
    }

    /// Takes the outcome of sending a record to the keyserver.
    pub fn apply_send_result(&mut self, outcome: Result<String, String>, now: u64)
        requires
            old(self).wf(),
        ensures
            final(self).wf(),
            final(self).tab == old(self).tab,
            final(self).mode == old(self).mode,
            final(self).state == old(self).state,
            final(self).config == old(self).config,
            final(self).public_records == old(self).public_records,
            final(self).secret_records == old(self).secret_records,
            final(self).saved_public == old(self).saved_public,
            final(self).saved_secret == old(self).saved_secret,
            final(self).records == old(self).records,
            final(self).prompt.pending == old(self).prompt.pending,
            outcome matches Ok(id) ==> (final(self).prompt.output_kind == OutputKind::Success
                && final(self).prompt.text@ == "key sent to the keyserver: 0x"@ + id@),
            outcome matches Err(e) ==> (final(self).prompt.output_kind == OutputKind::Failure
                && final(self).prompt.text@ == "send error: "@ + e@),
    {
        match outcome {
            Result::Ok(id) => {
                let mut msg = "key sent to the keyserver: 0x".to_owned();
                msg.append(id.as_str());
                self.prompt.set_output(OutputKind::Success, msg, now);
            },
            Result::Err(e) => {
                let mut msg = "send error: ".to_owned();
                msg.append(e.as_str());
                self.prompt.set_output(OutputKind::Failure, msg, now);
            },
        }
    }

    /// Takes the outcome of running the external program: once it has
    /// run, whatever its exit status, everything is refreshed; a
    /// failure to even launch it is reported without a refresh.
    pub fn apply_program_result(&mut self, launched: Result<(), String>, now: u64) -> (a: Option<
        Action,
    >)
        requires
            old(self).wf(),
        ensures
            final(self).wf(),
            final(self).tab == old(self).tab,
            final(self).mode == old(self).mode,
            final(self).state == old(self).state,
            final(self).config == old(self).config,
            final(self).public_records == old(self).public_records,
            final(self).secret_records == old(self).secret_records,
            final(self).saved_public == old(self).saved_public,
            final(self).saved_secret == old(self).saved_secret,
            final(self).records == old(self).records,
            final(self).prompt.pending == old(self).prompt.pending,
            launched is Ok ==> (a == Some(Action::FetchAllRecords) && *final(self) == *old(self)),
            launched matches Err(e) ==> (a is None && final(self).prompt.output_kind
                == OutputKind::Failure && final(self).prompt.text@ == "execution error: "@ + e@),
    {
        match launched {
            Result::Ok(_) => Some(Action::FetchAllRecords),
            Result::Err(e) => {
                let mut msg = "execution error: ".to_owned();
                msg.append(e.as_str());
                self.prompt.set_output(OutputKind::Failure, msg, now);
                None
            },
        }
    }

    /// Takes the exported key material fetched for a whole-key copy
    /// and hands it on to the clipboard.
    pub fn apply_material_result(&mut self, outcome: Result<String, String>, now: u64) -> (a:
        Option<Action>)
        requires
            old(self).wf(),
        ensures
            final(self).wf(),
            final(self).tab == old(self).tab,
            final(self).mode == old(self).mode,
            final(self).state == old(self).state,
            final(self).config == old(self).config,
            final(self).public_records == old(self).public_records,
            final(self).secret_records == old(self).secret_records,
            final(self).saved_public == old(self).saved_public,
            final(self).saved_secret == old(self).saved_secret,
            final(self).records == old(self).records,
            final(self).prompt.pending == old(self).prompt.pending,
            outcome matches Ok(content) ==> (old(self).clipboard_available ==> a == Some(
                Action::ClipboardSet(content),
            )),
            outcome is Ok && !old(self).clipboard_available ==> (a is None && final(self).prompt.output_kind == OutputKind::Failure && final(self).prompt.text@
                == "clipboard not available"@),
            outcome matches Err(e) ==> (a is None && final(self).prompt.output_kind
                == OutputKind::Failure && final(self).prompt.text@ == "copy error: "@ + e@),
    {
        match outcome {
            Result::Ok(content) => self.send_to_clipboard(CopyKind::Key, content, now),
            Result::Err(e) => {
                let mut msg = "copy error: ".to_owned();
                msg.append(e.as_str());
                self.prompt.set_output(OutputKind::Failure, msg, now);
                None
            },
        }
    }

    /// Takes the outcome of the clipboard write: on success the
    /// staged `copied to clipboard` notice becomes visible; on
    /// failure it is discarded and the error reported.
    pub fn apply_clipboard_set_result(&mut self, ok: bool, now: u64)
        requires
            old(self).wf(),
        ensures
            final(self).wf(),
            final(self).tab == old(self).tab,
            final(self).mode == old(self).mode,
            final(self).state == old(self).state,
            final(self).config == old(self).config,
            final(self).public_records == old(self).public_records,
            final(self).secret_records == old(self).secret_records,
            final(self).saved_public == old(self).saved_public,
            final(self).saved_secret == old(self).saved_secret,
            final(self).records == old(self).records,
            final(self).prompt.pending == old(self).prompt.pending,
            final(self).staged_output is None,
            ok ==> (old(self).staged_output matches Some((k, msg)) ==> (final(self).prompt.text
                == msg && final(self).prompt.output_kind == k)),
            !ok ==> (final(self).prompt.output_kind == OutputKind::Failure && final(self).prompt.text@ == "clipboard error"@),
    {
        let mut staged = Option::None;
        core::mem::swap(&mut staged, &mut self.staged_output);
        if ok {
            match staged {
                Option::Some((kind, msg)) => {
                    self.prompt.set_output(kind, msg, now);
                },
                Option::None => {},
            }
        } else {
            self.prompt.set_output(OutputKind::Failure, "clipboard error".to_owned(), now);
        }
    }

    /// Takes the clipboard's contents and seeds the command prompt
    /// with them, or reports the clipboard's error.
    pub fn apply_clipboard_text(&mut self, outcome: Result<String, String>, now: u64)
        requires
            old(self).wf(),
        ensures
            final(self).wf(),
            final(self).tab == old(self).tab,
            final(self).mode == old(self).mode,
            final(self).state == old(self).state,
            final(self).config == old(self).config,
            final(self).public_records == old(self).public_records,
            final(self).secret_records == old(self).secret_records,
            final(self).saved_public == old(self).saved_public,
            final(self).saved_secret == old(self).saved_secret,
            final(self).records == old(self).records,
            outcome matches Ok(text) ==> (final(self).prompt.text@ == seq![
                crate::prompt::command_prefix(),
            ] + text@ && final(self).prompt.pending is None),
            outcome is Err ==> final(self).prompt.pending == old(self).prompt.pending,
            outcome matches Err(e) ==> (final(self).prompt.output_kind == OutputKind::Failure
                && final(self).prompt.text@ == "clipboard error: "@ + e@),
    {
        match outcome {
            Result::Ok(text) => {
                proof {
                    reveal_strlit(":");
                }
                let mut seeded = ":".to_owned();
                seeded.append(text.as_str());
                proof {
                    assert(seeded@ =~= seq![crate::prompt::command_prefix()] + text@);
                }
                self.prompt.seed_text(seeded);
            },
            Result::Err(e) => {
                let mut msg = "clipboard error: ".to_owned();
                msg.append(e.as_str());
                self.prompt.set_output(OutputKind::Failure, msg, now);
            },
        }
    }

    /// Takes the answer to the output-directory check: an existing
    /// path becomes the export directory; a missing one is refused
    /// and nothing is applied.
    pub fn apply_output_dir(&mut self, path: String, exists: bool, now: u64)
        requires
            old(self).wf(),
        ensures
            final(self).wf(),
            final(self).tab == old(self).tab,
            final(self).mode == old(self).mode,
            final(self).state == old(self).state,
            final(self).public_records == old(self).public_records,
            final(self).secret_records == old(self).secret_records,
            final(self).saved_public == old(self).saved_public,
            final(self).saved_secret == old(self).saved_secret,
            final(self).records == old(self).records,
            final(self).prompt.pending == old(self).prompt.pending,
            final(self).config.armor == old(self).config.armor,
            final(self).config.default_key == old(self).config.default_key,
            exists ==> (final(self).config.output_dir == path && final(self).prompt.output_kind
                == OutputKind::Success && final(self).prompt.text@ == "output directory: "@
                + path@),
            !exists ==> (final(self).config == old(self).config && final(self).prompt.output_kind
                == OutputKind::Failure && final(self).prompt.text@ == "path does not exist"@),
    {
        if exists {
            let mut msg = "output directory: ".to_owned();
            msg.append(path.as_str());
            self.config.output_dir = path;
            self.prompt.set_output(OutputKind::Success, msg, now);
        } else {
            self.prompt.set_output(
                OutputKind::Failure,
                "path does not exist".to_owned(),
                now,
            );
        }
    }
}

} // verus!
