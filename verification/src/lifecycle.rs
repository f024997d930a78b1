//! The life of a check, as the agent keeps it and as a client may rely on
//! it: registered with a descriptor, reported on, removed.
//!
//! [`Check`] holds what the agent holds of one check identifier and answers
//! each operation as the agent does, with the status that `write_reply`
//! then reads. A client runs it beside its calls to know what a listing
//! will show, and a program without an agent puts it in the agent's place.
//! [`Maintenance`] does the same for the maintenance mode of the agent or of
//! a service, which the agent keeps as a critical check of its own making.

use crate::agent::{AgentCheck, CheckKind, RegisterAgentCheck, TTLStatus};
use crate::errors::Error;
use crate::request::{is_success, write_result, Response, NOT_FOUND};
use crate::WriteMeta;
use std::time::Duration;
use vstd::prelude::*;
use vstd::string::StringExecFns;

verus! {

/// The status with which the agent answers what it has done.
pub const ACCEPTED: u16 = 200;

/// The status with which the agent answers an update of a check that takes
/// none, because its status comes from a probe.
pub const REFUSED: u16 = 500;

/// Where a check stands in its life.
#[derive(Clone, Copy, Debug, PartialEq, Eq, Structural)]
pub enum CheckState {
    /// The agent has never held it.
    Unregistered,
    /// The agent holds it and knows no status of it yet.
    Registered,
    Passing,
    Warning,
    Critical,
    /// The agent held it and holds it no more.
    Deregistered,
}

/// What a registration says of a check, as far as its life depends on it:
/// who it is, of which one kind, and the status to start with where one is
/// asked for.
#[derive(Clone, Debug)]
pub struct CheckDescriptor {
    pub id: String,
    pub name: String,
    pub notes: String,
    pub service_id: String,
    pub kind: CheckKind,
    pub initial: Option<TTLStatus>,
}

/// A descriptor, its texts as sequences.
pub struct DescriptorView {
    pub id: Seq<char>,
    pub name: Seq<char>,
    pub notes: Seq<char>,
    pub service_id: Seq<char>,
    pub kind: CheckKind,
    pub initial: Option<TTLStatus>,
}

impl View for CheckDescriptor {
    type V = DescriptorView;

    open spec fn view(&self) -> DescriptorView {
        DescriptorView {
            id: self.id@,
            name: self.name@,
            notes: self.notes@,
            service_id: self.service_id@,
            kind: self.kind,
            initial: self.initial,
        }
    }
}

/// The text that was given, empty where none was.
pub open spec fn text_given(text: Option<&str>) -> Seq<char> {
    match text {
        Some(t) => t@,
        None => Seq::empty(),
    }
}

/// The text of an optional string, empty for none.
pub open spec fn text_or_empty(text: Option<String>) -> Seq<char> {
    match text {
        Some(t) => t@,
        None => Seq::empty(),
    }
}

/// The status that an optional word names.
pub open spec fn status_asked(word: Option<String>) -> Option<TTLStatus> {
    match word {
        Some(w) => TTLStatus::named(w@),
        None => None,
    }
}

impl RegisterAgentCheck {
    /// The descriptor of this registration, taken to be of the kind `kind`.
    pub open spec fn descriptor_view(&self, kind: CheckKind) -> DescriptorView {
        DescriptorView {
            id: self.ID@,
            name: self.Name@,
            notes: self.Notes@,
            service_id: text_or_empty(self.ServiceID),
            kind,
            initial: status_asked(self.Status),
        }
    }

    /// The descriptor of this registration: there is one where the fields
    /// of exactly one kind of check are filled in.
    pub fn descriptor(&self) -> (descriptor: Option<CheckDescriptor>)
        ensures
            match descriptor {
                Some(d) => self.only_kind(d.kind) && d@ == self.descriptor_view(d.kind),
                None => forall|k: CheckKind| !self.only_kind(k),
            },
            descriptor is Some <==> self.one_kind(),
    {
        let kind = match self.kind() {
            Some(kind) => kind,
            None => {
                return None;
            },
        };
        let service_id = match &self.ServiceID {
            Some(id) => id.clone(),
            None => String::new(),
        };
        let initial = match &self.Status {
            Some(word) => TTLStatus::from_name(word.as_str()),
            None => None,
        };
        Some(
            CheckDescriptor {
                id: self.ID.clone(),
                name: self.Name.clone(),
                notes: self.Notes.clone(),
                service_id,
                kind,
                initial,
            },
        )
    }
}

/// What the agent holds of one check identifier.
#[derive(Clone, Debug)]
pub enum Check {
    /// Nothing, and it never did.
    Unregistered,
    /// The check as it was registered, the status that is known of it, and
    /// what was last said with a status.
    Held { descriptor: CheckDescriptor, status: Option<TTLStatus>, output: String },
    /// Nothing any more.
    Deregistered,
}

/// A check, its texts as sequences.
pub enum CheckView {
    Unregistered,
    Held { descriptor: DescriptorView, status: Option<TTLStatus>, output: Seq<char> },
    Deregistered,
}

impl View for Check {
    type V = CheckView;

    open spec fn view(&self) -> CheckView {
        match *self {
            Check::Unregistered => CheckView::Unregistered,
            Check::Held { descriptor, status, output } => CheckView::Held {
                descriptor: descriptor@,
                status,
                output: output@,
            },
            Check::Deregistered => CheckView::Deregistered,
        }
    }
}

/// What a listing of the agent's checks shows of one check.
pub struct Listed {
    pub id: Seq<char>,
    pub name: Seq<char>,
    pub status: Option<TTLStatus>,
    pub notes: Seq<char>,
    pub output: Seq<char>,
    pub service_id: Seq<char>,
}

/// The state that goes with a status, `Registered` with none.
pub open spec fn state_with(status: Option<TTLStatus>) -> CheckState {
    match status {
        None => CheckState::Registered,
        Some(TTLStatus::PASS) => CheckState::Passing,
        Some(TTLStatus::WARN) => CheckState::Warning,
        Some(TTLStatus::FAIL) => CheckState::Critical,
    }
}

/// Where `check` stands in its life.
pub open spec fn state_of(check: CheckView) -> CheckState {
    match check {
        CheckView::Unregistered => CheckState::Unregistered,
        CheckView::Held { status, .. } => state_with(status),
        CheckView::Deregistered => CheckState::Deregistered,
    }
}

/// The status that a check starts with. One that waits for reports starts
/// as the registration asks, and critical where it asks for nothing; one
/// that is probed has no status until the first probe.
pub open spec fn initial_status(kind: CheckKind, initial: Option<TTLStatus>) -> Option<TTLStatus> {
    if kind == CheckKind::Ttl {
        match initial {
            Some(status) => Some(status),
            None => Some(TTLStatus::FAIL),
        }
    } else {
        None
    }
}

/// The check after a registration, whatever stood there before.
pub open spec fn registered(descriptor: DescriptorView) -> CheckView {
    CheckView::Held {
        descriptor,
        status: initial_status(descriptor.kind, descriptor.initial),
        output: Seq::empty(),
    }
}

/// The status with which the agent refuses a report on `check`: none for a
/// check that waits for reports.
pub open spec fn update_refusal(check: CheckView) -> Option<u16> {
    match check {
        CheckView::Held { descriptor, .. } => if descriptor.kind == CheckKind::Ttl {
            None
        } else {
            Some(REFUSED)
        },
        _ => Some(NOT_FOUND),
    }
}

/// The check after a report of `status` with `note`: changed where the
/// report is taken, as it was where it is refused.
pub open spec fn updated(check: CheckView, status: TTLStatus, note: Seq<char>) -> CheckView {
    match check {
        CheckView::Held { descriptor, .. } => if descriptor.kind == CheckKind::Ttl {
            CheckView::Held { descriptor, status: Some(status), output: note }
        } else {
            check
        },
        _ => check,
    }
}

/// The check after a probe of the agent's found `status` and said
/// `output`. Only a check that is held and probed changes by it.
pub open spec fn probed(check: CheckView, status: TTLStatus, output: Seq<char>) -> CheckView {
    match check {
        CheckView::Held { descriptor, .. } => if descriptor.kind == CheckKind::Ttl {
            check
        } else {
            CheckView::Held { descriptor, status: Some(status), output }
        },
        _ => check,
    }
}

/// The status with which the agent refuses to remove `check`: none for a
/// check that it holds.
pub open spec fn deregister_refusal(check: CheckView) -> Option<u16> {
    match check {
        CheckView::Held { .. } => None,
        _ => Some(NOT_FOUND),
    }
}

/// The check after its removal was asked for.
pub open spec fn deregistered(check: CheckView) -> CheckView {
    match check {
        CheckView::Held { .. } => CheckView::Deregistered,
        _ => check,
    }
}

/// The word by which a listing shows a status, empty for none.
pub open spec fn status_word(status: Option<TTLStatus>) -> Seq<char> {
    match status {
        Some(s) => s.name_text(),
        None => Seq::empty(),
    }
}

/// What a listing shows of `check`: an entry while the agent holds it.
pub open spec fn listed(check: CheckView) -> Option<Listed> {
    match check {
        CheckView::Held { descriptor, status, output } => Some(
            Listed {
                id: descriptor.id,
                name: descriptor.name,
                status,
                notes: descriptor.notes,
                output,
                service_id: descriptor.service_id,
            },
        ),
        _ => None,
    }
}

/// The status of the agent's answer: that of the refusal, and success
/// where it refuses nothing.
pub open spec fn answer_status(refusal: Option<u16>) -> u16 {
    match refusal {
        None => ACCEPTED,
        Some(status) => status,
    }
}

/// Whether `response` is the agent's answer to an operation that it
/// refuses with `refusal`, or takes where that is none: the status, and
/// nothing else.
pub open spec fn answers(response: Response, refusal: Option<u16>) -> bool {
    response.status == answer_status(refusal) && response.index is None && response.body@
        == Seq::<u8>::empty()
}

/// The agent's answer.
fn answer(refusal: Option<u16>) -> (response: Response)
    ensures
        answers(response, refusal),
{
    let status: u16 = match refusal {
        None => ACCEPTED,
        Some(status) => status,
    };
    Response { status, index: None, body: Vec::new() }
}

impl Check {
    /// A check that the agent has never held.
    pub fn new() -> (check: Check)
        ensures
            check@ == CheckView::Unregistered,
    {
        Check::Unregistered
    }

    /// Where the check stands in its life.
    pub fn state(&self) -> (state: CheckState)
        ensures
            state == state_of(self@),
    {
        match self {
            Check::Unregistered => CheckState::Unregistered,
            Check::Held { status: None, .. } => CheckState::Registered,
            Check::Held { status: Some(TTLStatus::PASS), .. } => CheckState::Passing,
            Check::Held { status: Some(TTLStatus::WARN), .. } => CheckState::Warning,
            Check::Held { status: Some(TTLStatus::FAIL), .. } => CheckState::Critical,
            Check::Deregistered => CheckState::Deregistered,
        }
    }

    /// Registers the check, in the place of whatever stood there. The agent
    /// refuses no descriptor.
    pub fn register(&mut self, descriptor: CheckDescriptor) -> (response: Response)
        ensures
            answers(response, None),
            final(self)@ == registered(descriptor@),
    {
        let status = if descriptor.kind == CheckKind::Ttl {
            match descriptor.initial {
                Some(status) => Some(status),
                None => Some(TTLStatus::FAIL),
            }
        } else {
            None
        };
        *self = Check::Held { descriptor, status, output: String::new() };
        answer(None)
    }

    /// Takes a report of `status`, with `note` as what is said with it and
    /// nothing said where there is none. The agent refuses it for a check
    /// that it does not hold and for one that is probed, and then nothing
    /// changes.
    pub fn update_ttl(&mut self, status: TTLStatus, note: Option<&str>) -> (response: Response)
        ensures
            answers(response, update_refusal(old(self)@)),
            final(self)@ == updated(old(self)@, status, text_given(note)),
    {
        let mut taken = Check::Deregistered;
        std::mem::swap(self, &mut taken);
        match taken {
            Check::Held { descriptor, status: before, output } => {
                if descriptor.kind == CheckKind::Ttl {
                    let said = match note {
                        Some(text) => String::from_str(text),
                        None => String::new(),
                    };
                    *self = Check::Held { descriptor, status: Some(status), output: said };
                    answer(None)
                } else {
                    *self = Check::Held { descriptor, status: before, output };
                    answer(Some(REFUSED))
                }
            },
            Check::Unregistered => {
                *self = Check::Unregistered;
                answer(Some(NOT_FOUND))
            },
            Check::Deregistered => answer(Some(NOT_FOUND)),
        }
    }

    /// Takes what a probe of the agent's found. A check that waits for
    /// reports, or that the agent does not hold, is not probed and does not
    /// change.
    pub fn probe(&mut self, status: TTLStatus, output: &str)
        ensures
            final(self)@ == probed(old(self)@, status, output@),
    {
        let mut taken = Check::Deregistered;
        std::mem::swap(self, &mut taken);
        match taken {
            Check::Held { descriptor, status: before, output: said } => {
                if descriptor.kind == CheckKind::Ttl {
                    *self = Check::Held { descriptor, status: before, output: said };
                } else {
                    *self = Check::Held {
                        descriptor,
                        status: Some(status),
                        output: String::from_str(output),
                    };
                }
            },
            Check::Unregistered => {
                *self = Check::Unregistered;
            },
            Check::Deregistered => {},
        }
    }

    /// Removes the check. The agent refuses where it holds none.
    pub fn deregister(&mut self) -> (response: Response)
        ensures
            answers(response, deregister_refusal(old(self)@)),
            final(self)@ == deregistered(old(self)@),
    {
        match self {
            Check::Held { .. } => {
                *self = Check::Deregistered;
                answer(None)
            },
            _ => answer(Some(NOT_FOUND)),
        }
    }

    /// The entry that a listing of the agent's checks has for this check.
    pub fn report(&self) -> (entry: Option<AgentCheck>)
        ensures
            match entry {
                Some(e) => listed(self@) matches Some(shown) && e.CheckID@ == shown.id && e.Name@
                    == shown.name && TTLStatus::named(e.Status@) == shown.status && e.Notes@
                    == shown.notes && e.Output@ == shown.output && e.ServiceID@
                    == shown.service_id && e.Node@ == Seq::<char>::empty() && e.ServiceName@
                    == Seq::<char>::empty() && e.Status@ == status_word(shown.status),
                None => listed(self@) is None,
            },
    {
        match self {
            Check::Held { descriptor, status, output } => {
                let word = match status {
                    Some(s) => {
                        proof {
                            s.lemma_named();
                        }
                        String::from_str(s.name())
                    },
                    None => {
                        proof {
                            lemma_no_name();
                        }
                        String::new()
                    },
                };
                Some(
                    AgentCheck {
                        Node: String::new(),
                        CheckID: descriptor.id.clone(),
                        Name: descriptor.name.clone(),
                        Status: word,
                        Notes: descriptor.notes.clone(),
                        Output: output.clone(),
                        ServiceID: descriptor.service_id.clone(),
                        ServiceName: String::new(),
                    },
                )
            },
            _ => None,
        }
    }
}

/// The empty word names no status.
proof fn lemma_no_name()
    ensures
        TTLStatus::named(Seq::empty()) is None,
{
    reveal_strlit("passing");
    reveal_strlit("warning");
    reveal_strlit("critical");
    assert("passing"@.len() == 7);
    assert("warning"@.len() == 7);
    assert("critical"@.len() == 8);
}

/// A check that is registered is listed, under its identifier and with the
/// status that its kind starts with: for one that waits for reports the
/// status asked for, or critical; for one that is probed none, and then
/// what the first probe finds. This holds of every registration that fills
/// in the fields of exactly one kind, whatever stood there before.
pub proof fn lemma_registered_is_listed(
    reg: RegisterAgentCheck,
    kind: CheckKind,
    found: TTLStatus,
    said: Seq<char>,
)
    requires
        reg.only_kind(kind),
    ensures
        listed(registered(reg.descriptor_view(kind))) matches Some(entry) && entry.id == reg.ID@
            && entry.status == initial_status(kind, status_asked(reg.Status)),
        kind == CheckKind::Ttl ==> state_of(registered(reg.descriptor_view(kind)))
            == state_with(
            Some(
                match status_asked(reg.Status) {
                    Some(status) => status,
                    None => TTLStatus::FAIL,
                },
            ),
        ),
        kind != CheckKind::Ttl ==> state_of(registered(reg.descriptor_view(kind)))
            == CheckState::Registered,
        kind != CheckKind::Ttl ==> (listed(
            probed(registered(reg.descriptor_view(kind)), found, said),
        ) matches Some(entry) && entry.id == reg.ID@ && entry.status == Some(found)),
{
}

/// A report that the agent takes is listed: the check shows the status
/// that was reported and, as its output, the note that came with it.
pub proof fn lemma_update_is_listed(check: CheckView, status: TTLStatus, note: Seq<char>)
    requires
        update_refusal(check) is None,
    ensures
        listed(updated(check, status, note)) matches Some(entry) && entry.status == Some(status)
            && entry.output == note,
        listed(check) matches Some(before) && listed(updated(check, status, note)).unwrap().id
            == before.id,
        state_of(updated(check, status, note)) == state_with(Some(status)),
{
}

/// A check that the agent does not hold is not found, and stays so. Its
/// removal changes nothing and is answered with `404`, which a write reads
/// as the agent's error of that status; and so is a report on it, before
/// that removal and after it.
pub proof fn lemma_absent_is_not_found(
    check: CheckView,
    status: TTLStatus,
    note: Seq<char>,
    removal: Response,
    report: Response,
    request_time: Duration,
)
    requires
        !(check is Held),
        answers(removal, deregister_refusal(check)),
        answers(report, update_refusal(deregistered(check))),
    ensures
        deregistered(check) == check,
        updated(check, status, note) == check,
        write_result(removal, request_time) == Err::<(Vec<u8>, WriteMeta), Error>(
            Error::ServerError { status: 404, body: removal.body },
        ),
        write_result(report, request_time) == Err::<(Vec<u8>, WriteMeta), Error>(
            Error::ServerError { status: 404, body: report.body },
        ),
{
}

/// A check that was removed is gone: the removal is a success, nothing is
/// listed of the check after it, and a report on it or a second removal
/// is answered with `404`.
pub proof fn lemma_removed_is_gone(check: CheckView, removal: Response, request_time: Duration)
    requires
        check is Held,
        answers(removal, deregister_refusal(check)),
    ensures
        write_result(removal, request_time) is Ok,
        state_of(deregistered(check)) == CheckState::Deregistered,
        listed(deregistered(check)) is None,
        update_refusal(deregistered(check)) == Some(NOT_FOUND),
        deregister_refusal(deregistered(check)) == Some(NOT_FOUND),
{
}

/// A report on a check is a success where the check waits for reports,
/// and the agent's error otherwise: of status `404` where the agent holds
/// no such check, of another status where the check is probed.
pub proof fn lemma_report_answer(check: CheckView, report: Response, request_time: Duration)
    requires
        answers(report, update_refusal(check)),
    ensures
        write_result(report, request_time) is Ok <==> (check matches CheckView::Held {
            descriptor,
            ..
        } && descriptor.kind == CheckKind::Ttl),
        write_result(report, request_time) matches Err(Error::ServerError { status, .. })
            ==> (status == 404 <==> !(check is Held)),
        !is_success(NOT_FOUND) && !is_success(REFUSED) && is_success(ACCEPTED),
{
}

/// The maintenance mode of the agent or of one service: off, or on with
/// the reason that it was switched on with.
#[derive(Clone, Debug)]
pub struct Maintenance {
    reason: Option<String>,
}

impl View for Maintenance {
    type V = Option<Seq<char>>;

    closed spec fn view(&self) -> Option<Seq<char>> {
        match self.reason {
            Some(r) => Some(r@),
            None => None,
        }
    }
}

/// The mode after a switch. Switching off leaves it off; switching on
/// what is off takes the reason; switching on what is on changes nothing.
pub open spec fn switched(before: Option<Seq<char>>, enable: bool, reason: Seq<char>) -> Option<
    Seq<char>,
> {
    if !enable {
        None
    } else {
        match before {
            Some(kept) => Some(kept),
            None => Some(reason),
        }
    }
}

impl Maintenance {
    /// Maintenance mode, off.
    pub fn new() -> (mode: Maintenance)
        ensures
            mode@ is None,
    {
        Maintenance { reason: None }
    }

    /// Switches the mode on or off. The agent refuses no switch.
    pub fn set(&mut self, enable: bool, reason: Option<&str>) -> (response: Response)
        ensures
            answers(response, None),
            final(self)@ == switched(old(self)@, enable, text_given(reason)),
    {
        if !enable {
            self.reason = None;
        } else if self.reason.is_none() {
            let text = match reason {
                Some(r) => String::from_str(r),
                None => String::new(),
            };
            self.reason = Some(text);
        }
        answer(None)
    }

    /// The status of the check that stands for the mode: critical while
    /// the mode is on, and no check while it is off.
    pub fn status(&self) -> (status: Option<TTLStatus>)
        ensures
            status == match self@ {
                Some(_) => Some(TTLStatus::FAIL),
                None => None,
            },
    {
        match &self.reason {
            Some(_) => Some(TTLStatus::FAIL),
            None => None,
        }
    }

    /// The reason that the check for the mode shows while the mode is on.
    pub fn reason(&self) -> (reason: Option<&String>)
        ensures
            match reason {
                Some(r) => self@ == Some(r@),
                None => self@ is None,
            },
    {
        self.reason.as_ref()
    }
}

/// Switching maintenance on twice is switching it on once. The second
/// switch is a success like the first and changes nothing, so the reason
/// shown stays the one of the first, whatever reason comes with the second.
pub proof fn lemma_enable_twice(
    before: Option<Seq<char>>,
    first: Seq<char>,
    second: Seq<char>,
    answer: Response,
    request_time: Duration,
)
    requires
        answers(answer, None),
    ensures
        write_result(answer, request_time) is Ok,
        switched(switched(before, true, first), true, second) == switched(before, true, first),
        before is None ==> switched(switched(before, true, first), true, second) == Some(first),
{
}

/// Switching maintenance off where it is off changes nothing, and is a
/// success all the same.
pub proof fn lemma_disable_when_off(reason: Seq<char>, answer: Response, request_time: Duration)
    requires
        answers(answer, None),
    ensures
        write_result(answer, request_time) is Ok,
        switched(None, false, reason) == None::<Seq<char>>,
{
}

} // verus!
