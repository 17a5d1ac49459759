//! The closed command vocabulary of the dispatcher, the tab and mode
//! types, and the actions through which the dispatcher asks its
//! caller to perform engine, subprocess and clipboard work.

use vstd::prelude::*;
use vstd::string::*;

use crate::strutil::str_eq;

verus! {

/// The two record categories the engine serves.
#[derive(Clone, Copy, PartialEq, Eq, Structural, Debug)]
pub enum KeyKind {
    Public,
    Secret,
}

impl KeyKind {
    /// The category's short name.
    pub open spec fn label_spec(self) -> Seq<char> {
        match self {
            KeyKind::Public => "pub"@,
            KeyKind::Secret => "sec"@,
        }
    }

    /// The category's short name.
    pub fn label(&self) -> (r: String)
        ensures
            r@ == self.label_spec(),
    {
        match *self {
            KeyKind::Public => "pub".to_owned(),
            KeyKind::Secret => "sec".to_owned(),
        }
    }
}

/// The interaction mode of the application.
#[derive(Clone, Copy, PartialEq, Eq, Structural, Debug)]
pub enum Mode {
    Normal,
    Visual,
    Copying,
}

impl Mode {
    /// The mode's name.
    pub open spec fn label_spec(self) -> Seq<char> {
        match self {
            Mode::Normal => "normal"@,
            Mode::Visual => "visual"@,
            Mode::Copying => "copy"@,
        }
    }

    /// The mode's name.
    pub fn label(&self) -> (r: String)
        ensures
            r@ == self.label_spec(),
    {
        match *self {
            Mode::Normal => "normal".to_owned(),
            Mode::Visual => "visual".to_owned(),
            Mode::Copying => "copy".to_owned(),
        }
    }

    /// Parses a mode name; `None` for anything else.
    pub fn parse(s: &str) -> (r: Option<Mode>)
        ensures
            r == Some(Mode::Normal) <==> s@ == "normal"@,
            r == Some(Mode::Visual) <==> s@ == "visual"@,
            r == Some(Mode::Copying) <==> s@ == "copy"@,
            r is None <==> (s@ != "normal"@ && s@ != "visual"@ && s@ != "copy"@),
    {
        proof {
            reveal_strlit("normal");
            reveal_strlit("visual");
            reveal_strlit("copy");
            assert("normal"@.len() == 6);
            assert("visual"@.len() == 6);
            assert("copy"@.len() == 4);
            assert("normal"@[0] == 'n');
            assert("visual"@[0] == 'v');
        }
        if str_eq(s, "normal") {
            Some(Mode::Normal)
        } else if str_eq(s, "visual") {
            Some(Mode::Visual)
        } else if str_eq(s, "copy") {
            Some(Mode::Copying)
        } else {
            None
        }
    }
}

/// What a copy command copies.
#[derive(Clone, Copy, PartialEq, Eq, Structural, Debug)]
pub enum CopyKind {
    /// The whole exported key material, fetched through the engine.
    Key,
    /// The record's identifier.
    KeyId,
    /// The record's fingerprint.
    KeyFingerprint,
    /// The record's user identity.
    KeyUserId,
    /// One of the two projected table columns, joined by newlines.
    TableRow(u8),
}

/// How a scroll command moves.
#[derive(Clone, Copy, PartialEq, Eq, Structural, Debug)]
pub enum ScrollDirection {
    Up(u16),
    Down(u16),
    Top,
    Bottom,
}

/// Which logical screen is active.
#[derive(Clone, Copy, PartialEq, Eq, Structural, Debug)]
pub enum Tab {
    Records(KeyKind),
    Help,
}

/// The severity of a prompt message.
#[derive(Clone, Copy, PartialEq, Eq, Structural, Debug)]
pub enum OutputKind {
    Neutral,
    Success,
    Warning,
    Failure,
    Action,
}

/// One discrete operation the dispatcher can be asked to perform.
pub enum Command {
    Noop,
    ShowHelp,
    ShowOutput(OutputKind, String),
    ShowOptions,
    ListKeys(KeyKind),
    ImportKeys(Vec<String>, bool),
    ExportKeys(KeyKind, Vec<String>),
    DeleteKey(KeyKind, String),
    SendKey(String),
    GenerateKey,
    RefreshKeys,
    EditKey(String),
    SignKey(String),
    ToggleDetail(bool),
    Scroll(ScrollDirection, bool),
    SetOption(String, String),
    GetOption(String),
    SwitchMode(Mode),
    CopyText(CopyKind),
    Paste,
    EnableInput,
    SearchRecords(Option<String>),
    NextTab,
    PreviousTab,
    Refresh,
    Quit,
    Confirm(Box<Command>),
}

/// The subprocess operations that are delegated to the external
/// program in whole.
pub enum ProgramOp {
    EditKey(String),
    SignKey(String, Option<String>),
    ReceiveKeys(Vec<String>),
    RefreshKeys,
    GenerateKey,
}

/// Work the dispatcher asks its caller to carry out; the outcome
/// comes back through the matching `apply_*` method.
pub enum Action {
    /// Fetch every category from the engine and hand the lists back.
    FetchAllRecords,
    /// Import the given files through the engine.
    ImportRecords(Vec<String>),
    /// Export the records matching the patterns through the engine.
    ExportRecords(KeyKind, Vec<String>),
    /// Delete one record through the engine.
    DeleteRecord(KeyKind, String),
    /// Send one record to the keyserver through the engine.
    SendRecord(String),
    /// Fetch the exported text of the records matching the patterns.
    FetchRecordMaterial(KeyKind, Vec<String>),
    /// Run the external program and wait for it.
    RunProgram(ProgramOp),
    /// Put the text on the clipboard.
    ClipboardSet(String),
    /// Read the clipboard.
    ClipboardGet,
    /// Report whether the directory exists.
    CheckOutputDir(String),
}

impl Tab {
    /// The tab after this one, in the fixed cycle
    /// public records, secret records, help.
    pub open spec fn next_spec(self) -> Tab {
        match self {
            Tab::Records(KeyKind::Public) => Tab::Records(KeyKind::Secret),
            Tab::Records(KeyKind::Secret) => Tab::Help,
            Tab::Help => Tab::Records(KeyKind::Public),
        }
    }

    /// The tab before this one in the same cycle.
    pub open spec fn previous_spec(self) -> Tab {
        match self {
            Tab::Records(KeyKind::Public) => Tab::Help,
            Tab::Records(KeyKind::Secret) => Tab::Records(KeyKind::Public),
            Tab::Help => Tab::Records(KeyKind::Secret),
        }
    }

    /// The tab after this one.
    pub fn next(&self) -> (r: Tab)
        ensures
            r == self.next_spec(),
    {
        match *self {
            Tab::Records(KeyKind::Public) => Tab::Records(KeyKind::Secret),
            Tab::Records(KeyKind::Secret) => Tab::Help,
            Tab::Help => Tab::Records(KeyKind::Public),
        }
    }

    /// The tab before this one.
    pub fn previous(&self) -> (r: Tab)
        ensures
            r == self.previous_spec(),
    {
        match *self {
            Tab::Records(KeyKind::Public) => Tab::Help,
            Tab::Records(KeyKind::Secret) => Tab::Records(KeyKind::Public),
            Tab::Help => Tab::Records(KeyKind::Secret),
        }
    }

    /// The command that enters this tab.
    pub open spec fn entry_command_spec(self) -> Command {
        match self {
            Tab::Records(k) => Command::ListKeys(k),
            Tab::Help => Command::ShowHelp,
        }
    }

    /// The command that enters this tab.
    pub fn entry_command(&self) -> (r: Command)
        ensures
            r == self.entry_command_spec(),
    {
        match *self {
            Tab::Records(k) => Command::ListKeys(k),
            Tab::Help => Command::ShowHelp,
        }
    }
}

impl CopyKind {
    /// What the copy target is called in messages.
    pub open spec fn label_spec(self) -> Seq<char> {
        match self {
            CopyKind::Key => "key"@,
            CopyKind::KeyId => "key id"@,
            CopyKind::KeyFingerprint => "key fingerprint"@,
            CopyKind::KeyUserId => "key user id"@,
            CopyKind::TableRow(n) => "row "@ + crate::strutil::dec_str(n as nat),
        }
    }

    /// What the copy target is called in messages.
    pub fn label(&self) -> (r: String)
        ensures
            r@ == self.label_spec(),
    {
        match *self {
            CopyKind::Key => "key".to_owned(),
            CopyKind::KeyId => "key id".to_owned(),
            CopyKind::KeyFingerprint => "key fingerprint".to_owned(),
            CopyKind::KeyUserId => "key user id".to_owned(),
            CopyKind::TableRow(n) => {
                let mut s = "row ".to_owned();
                s.append(crate::strutil::u64_to_string(n as u64).as_str());
                s
            },
        }
    }
}

impl Command {
    /// The short name a command is shown under, in the options
    /// overlay and in confirmation prompts.
    pub open spec fn label_spec(self) -> Seq<char>
        decreases self,
    {
        match self {
            Command::Noop => "close menu"@,
            Command::ShowHelp => "show help"@,
            Command::ShowOutput(_, _) => "show output"@,
            Command::ShowOptions => "show options"@,
            Command::ListKeys(k) => "list "@ + k.label_spec(),
            Command::ImportKeys(_, false) => "import keys"@,
            Command::ImportKeys(_, true) => "receive keys"@,
            Command::ExportKeys(k, ps) => "export "@ + k.label_spec() + (if ps@.len() == 0 {
                " (all)"@
            } else {
                ""@
            }),
            Command::DeleteKey(_, _) => "delete key"@,
            Command::SendKey(_) => "send key"@,
            Command::GenerateKey => "generate key"@,
            Command::RefreshKeys => "refresh keys"@,
            Command::EditKey(_) => "edit key"@,
            Command::SignKey(_) => "sign key"@,
            Command::ToggleDetail(true) => "toggle detail (all)"@,
            Command::ToggleDetail(false) => "toggle detail"@,
            Command::Scroll(_, _) => "scroll"@,
            Command::SetOption(o, v) => "set "@ + o@ + " "@ + v@,
            Command::GetOption(o) => "get "@ + o@,
            Command::SwitchMode(m) => "mode "@ + m.label_spec(),
            Command::CopyText(c) => "copy "@ + c.label_spec(),
            Command::Paste => "paste"@,
            Command::EnableInput => "enter command"@,
            Command::SearchRecords(_) => "search"@,
            Command::NextTab => "next tab"@,
            Command::PreviousTab => "previous tab"@,
            Command::Refresh => "refresh"@,
            Command::Quit => "quit"@,
            Command::Confirm(c) => "confirm "@ + c.label_spec(),
        }
    }

    /// The short name a command is shown under.
    pub fn label(&self) -> (r: String)
        ensures
            r@ == self.label_spec(),
        decreases *self,
    {
        match self {
            Command::Noop => "close menu".to_owned(),
            Command::ShowHelp => "show help".to_owned(),
            Command::ShowOutput(_, _) => "show output".to_owned(),
            Command::ShowOptions => "show options".to_owned(),
            Command::ListKeys(k) => {
                let mut s = "list ".to_owned();
                s.append(k.label().as_str());
                s
            },
            Command::ImportKeys(_, receive) => if *receive {
                "receive keys".to_owned()
            } else {
                "import keys".to_owned()
            },
            Command::ExportKeys(k, ps) => {
                let mut s = "export ".to_owned();
                s.append(k.label().as_str());
                if ps.len() == 0 {
                    s.append(" (all)");
                }
                proof {
                    reveal_strlit("");
                    if ps@.len() > 0 {
                        assert(s@ =~= self.label_spec());
                    }
                }
                s
            },
            Command::DeleteKey(_, _) => "delete key".to_owned(),
            Command::SendKey(_) => "send key".to_owned(),
            Command::GenerateKey => "generate key".to_owned(),
            Command::RefreshKeys => "refresh keys".to_owned(),
            Command::EditKey(_) => "edit key".to_owned(),
            Command::SignKey(_) => "sign key".to_owned(),
            Command::ToggleDetail(all) => if *all {
                "toggle detail (all)".to_owned()
            } else {
                "toggle detail".to_owned()
            },
            Command::Scroll(_, _) => "scroll".to_owned(),
            Command::SetOption(o, v) => {
                let mut s = "set ".to_owned();
                s.append(o.as_str());
                s.append(" ");
                s.append(v.as_str());
                s
            },
            Command::GetOption(o) => {
                let mut s = "get ".to_owned();
                s.append(o.as_str());
                s
            },
            Command::SwitchMode(m) => {
                let mut s = "mode ".to_owned();
                s.append(m.label().as_str());
                s
            },
            Command::CopyText(c) => {
                let mut s = "copy ".to_owned();
                s.append(c.label().as_str());
                s
            },
            Command::Paste => "paste".to_owned(),
            Command::EnableInput => "enter command".to_owned(),
            Command::SearchRecords(_) => "search".to_owned(),
            Command::NextTab => "next tab".to_owned(),
            Command::PreviousTab => "previous tab".to_owned(),
            Command::Refresh => "refresh".to_owned(),
            Command::Quit => "quit".to_owned(),
            Command::Confirm(c) => {
                let mut s = "confirm ".to_owned();
                s.append(c.label().as_str());
                s
            },
        }
    }
}

/// Cycling one tab forward and then one back, or back and then
/// forward, lands on the starting tab.
pub proof fn lemma_tab_cycle(t: Tab)
    ensures
        t.next_spec().previous_spec() == t,
        t.previous_spec().next_spec() == t,
{
}

} // verus!
