//! The state behind the connection panel of the web page: the host address
//! and passkey typed in, and the log of what happened.

use vstd::prelude::*;
use vstd::string::*;

use crate::text::texts;

verus! {

/// The connection panel: its two inputs and its log, oldest line first.
pub struct ConnectionPanel {
    host_address: String,
    passkey: String,
    logs: Vec<String>,
}

/// The panel, its texts taken by their characters.
pub struct PanelView {
    pub host_address: Seq<char>,
    pub passkey: Seq<char>,
    pub logs: Seq<Seq<char>>,
}

impl View for ConnectionPanel {
    type V = PanelView;

    closed spec fn view(&self) -> PanelView {
        PanelView {
            host_address: self.host_address@,
            passkey: self.passkey@,
            logs: texts(self.logs@),
        }
    }
}

/// The lines that the log starts with.
pub open spec fn startup_logs() -> Seq<Seq<char>> {
    seq!["Program started."@, "Waiting for connection..."@]
}

/// The line logged when connecting to `host`.
pub open spec fn connecting_line(host: Seq<char>) -> Seq<char> {
    "Connecting to "@ + host + "..."@
}

/// The line logged when reconnecting.
pub open spec fn reconnecting_line() -> Seq<char> {
    "Reconnecting..."@
}

/// The log still begins with the start-up lines.
pub open spec fn starts_with_startup(v: PanelView) -> bool {
    v.logs.len() >= startup_logs().len() && v.logs.take(startup_logs().len() as int)
        == startup_logs()
}

/// Something the user does on the panel.
pub enum PanelEvent {
    /// Types `value` into the host address input.
    SetHostAddress(Seq<char>),
    /// Types `value` into the passkey input.
    SetPasskey(Seq<char>),
    /// Presses Connect.
    Connect,
    /// Presses Reconnect.
    Reconnect,
}

/// The panel after event `e`.
pub open spec fn panel_step(v: PanelView, e: PanelEvent) -> PanelView {
    match e {
        PanelEvent::SetHostAddress(value) => PanelView { host_address: value, ..v },
        PanelEvent::SetPasskey(value) => PanelView { passkey: value, ..v },
        PanelEvent::Connect => PanelView { logs: v.logs.push(connecting_line(v.host_address)), ..v },
        PanelEvent::Reconnect => PanelView { logs: v.logs.push(reconnecting_line()), ..v },
    }
}

/// The panel after the events `es`, in order.
pub open spec fn panel_run(v: PanelView, es: Seq<PanelEvent>) -> PanelView
    decreases es.len(),
{
    if es.len() == 0 {
        v
    } else {
        panel_step(panel_run(v, es.drop_last()), es.last())
    }
}

/// Two events that are the same but for the value typed into the passkey input.
pub open spec fn same_but_passkey(a: PanelEvent, b: PanelEvent) -> bool {
    match (a, b) {
        (PanelEvent::SetPasskey(_), PanelEvent::SetPasskey(_)) => true,
        _ => a == b,
    }
}

/// The passkey never reaches the log: from panels with the same host address
/// and log, two runs of events that differ only in what is typed into the
/// passkey input end with the same host address and the same log.
pub proof fn lemma_passkey_never_logged(
    v1: PanelView,
    v2: PanelView,
    es1: Seq<PanelEvent>,
    es2: Seq<PanelEvent>,
)
    requires
        v1.host_address == v2.host_address,
        v1.logs == v2.logs,
        es1.len() == es2.len(),
        forall|i: int| 0 <= i < es1.len() ==> same_but_passkey(#[trigger] es1[i], es2[i]),
    ensures
        panel_run(v1, es1).logs == panel_run(v2, es2).logs,
        panel_run(v1, es1).host_address == panel_run(v2, es2).host_address,
    decreases es1.len(),
{
    if es1.len() > 0 {
        let n = es1.len() - 1;
        assert(same_but_passkey(es1[n], es2[n]));
        lemma_passkey_never_logged(v1, v2, es1.drop_last(), es2.drop_last());
    }
}

impl ConnectionPanel {
    /// The panel as the page opens: both inputs empty, and the start-up lines logged.
    pub fn new() -> (p: Self)
        ensures
            p@.host_address == Seq::<char>::empty(),
            p@.passkey == Seq::<char>::empty(),
            p@.logs == startup_logs(),
            starts_with_startup(p@),
    {
        let mut logs = Vec::new();
        logs.push(String::from_str("Program started."));
        logs.push(String::from_str("Waiting for connection..."));
        let p = ConnectionPanel { host_address: String::new(), passkey: String::new(), logs };
        assert(p@.logs =~= startup_logs());
        assert(p@.logs.take(2) =~= startup_logs());
        p
    }

    /// The host address as typed.
    pub fn host_address(&self) -> (s: &String)
        ensures
            s@ == self@.host_address,
    {
        &self.host_address
    }

    /// The passkey as typed.
    pub fn passkey(&self) -> (s: &String)
        ensures
            s@ == self@.passkey,
    {
        &self.passkey
    }

    /// The log, oldest line first.
    pub fn logs(&self) -> (l: Vec<String>)
        ensures
            texts(l@) == self@.logs,
    {
        let mut l: Vec<String> = Vec::new();
        let n = self.logs.len();
        for i in 0..n
            invariant
                n == self.logs@.len(),
                l@.len() == i,
                forall|k: int| 0 <= k < i ==> (#[trigger] l@[k])@ == self.logs@[k]@,
        {
            l.push(self.logs[i].clone());
        }
        assert(texts(l@) =~= self@.logs);
        l
    }

    /// Takes what the host address input now holds; the passkey and the log stay.
    pub fn set_host_address(&mut self, value: String)
        ensures
            final(self)@ == panel_step(old(self)@, PanelEvent::SetHostAddress(value@)),
            final(self)@.host_address == value@,
            final(self)@.passkey == old(self)@.passkey,
            final(self)@.logs == old(self)@.logs,
    {
        self.host_address = value;
    }

    /// Takes what the passkey input now holds; the host address and the log stay.
    pub fn set_passkey(&mut self, value: String)
        ensures
            final(self)@ == panel_step(old(self)@, PanelEvent::SetPasskey(value@)),
            final(self)@.passkey == value@,
            final(self)@.host_address == old(self)@.host_address,
            final(self)@.logs == old(self)@.logs,
    {
        self.passkey = value;
    }

    /// The Connect button: logs that the panel connects to the host address.
    pub fn connect(&mut self)
        ensures
            final(self)@ == panel_step(old(self)@, PanelEvent::Connect),
            final(self)@.logs == old(self)@.logs.push(connecting_line(old(self)@.host_address)),
            final(self)@.host_address == old(self)@.host_address,
            final(self)@.passkey == old(self)@.passkey,
            starts_with_startup(old(self)@) ==> starts_with_startup(final(self)@),
    {
        let mut line = String::from_str("Connecting to ");
        line.append(self.host_address.as_str());
        line.append("...");
        self.push_log(line);
    }

    /// The Reconnect button: logs that the panel reconnects.
    pub fn reconnect(&mut self)
        ensures
            final(self)@ == panel_step(old(self)@, PanelEvent::Reconnect),
            final(self)@.logs == old(self)@.logs.push(reconnecting_line()),
            final(self)@.host_address == old(self)@.host_address,
            final(self)@.passkey == old(self)@.passkey,
            starts_with_startup(old(self)@) ==> starts_with_startup(final(self)@),
    {
        self.push_log(String::from_str("Reconnecting..."));
    }

    fn push_log(&mut self, line: String)
        ensures
            final(self)@.logs == old(self)@.logs.push(line@),
            final(self)@.host_address == old(self)@.host_address,
            final(self)@.passkey == old(self)@.passkey,
            starts_with_startup(old(self)@) ==> starts_with_startup(final(self)@),
    {
        let ghost before = self@.logs;
        self.logs.push(line);
        assert(self@.logs =~= before.push(line@));
        assert(before.len() >= 2 ==> self@.logs.take(2) =~= before.take(2));
    }
}

} // verus!
