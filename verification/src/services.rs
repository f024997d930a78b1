//! The services that the agent holds, as a client may rely on them:
//! registered under an identifier, and listed as they were registered.
//!
//! [`Services`] holds what the agent holds and answers as the agent does. A
//! client runs it beside its calls to know what a listing will show, and a
//! program without an agent puts it in the agent's place.

use crate::agent::{AgentService, RegisterAgentService};
use crate::lifecycle::{answers, ACCEPTED};
use crate::request::Response;
use crate::text::{join, same_text};
use vstd::prelude::*;
use vstd::string::StringExecFns;

verus! {

/// What a listing shows of a service, its texts as sequences. The tags are
/// in their order.
pub struct ServiceView {
    pub id: Seq<char>,
    pub service: Seq<char>,
    pub tags: Option<Seq<Seq<char>>>,
    pub port: u16,
    pub address: Seq<char>,
    pub enable_tag_override: bool,
}

/// The texts of `texts`, in their order.
pub open spec fn texts_view(texts: Seq<String>) -> Seq<Seq<char>> {
    Seq::new(texts.len(), |i: int| texts[i]@)
}

/// The tags, in their order, where there are any.
pub open spec fn tags_view(tags: Option<Vec<String>>) -> Option<Seq<Seq<char>>> {
    match tags {
        Some(list) => Some(texts_view(list@)),
        None => None,
    }
}

/// What a listing shows of the entry `entry`.
pub open spec fn entry_view(entry: AgentService) -> ServiceView {
    ServiceView {
        id: entry.ID@,
        service: entry.Service@,
        tags: tags_view(entry.Tags),
        port: entry.Port,
        address: entry.Address@,
        enable_tag_override: entry.EnableTagOverride,
    }
}

/// What a listing shows of each of `entries`.
pub open spec fn entries_view(entries: Seq<AgentService>) -> Seq<ServiceView> {
    Seq::new(entries.len(), |i: int| entry_view(entries[i]))
}

impl RegisterAgentService {
    /// What a listing shows of the service once it is registered.
    pub open spec fn listed(&self) -> ServiceView {
        ServiceView {
            id: self.ID@,
            service: self.Name@,
            tags: tags_view(self.Tags),
            port: self.Port,
            address: self.Address@,
            enable_tag_override: self.EnableTagOverride,
        }
    }
}

/// Whether one of `services` has the identifier `id`.
pub open spec fn has_service(services: Seq<ServiceView>, id: Seq<char>) -> bool {
    exists|i: int| 0 <= i < services.len() && (#[trigger] services[i]).id == id
}

/// Whether the identifiers of `services` differ from one another.
pub open spec fn distinct_ids(services: Seq<ServiceView>) -> bool {
    forall|i: int, j: int|
        0 <= i < j < services.len() ==> (#[trigger] services[i]).id != (#[trigger] services[j]).id
}

/// A place at which `services` holds `id`; where the identifiers are
/// distinct, the only one.
pub open spec fn service_position(services: Seq<ServiceView>, id: Seq<char>) -> int
    recommends
        has_service(services, id),
{
    choose|i: int| 0 <= i < services.len() && (#[trigger] services[i]).id == id
}

/// The services after `entry` is registered: in the place of the service
/// of its identifier, or else at the end.
pub open spec fn registered(services: Seq<ServiceView>, entry: ServiceView) -> Seq<ServiceView> {
    if has_service(services, entry.id) {
        services.update(service_position(services, entry.id), entry)
    } else {
        services.push(entry)
    }
}

/// What a listing shows under a filter that lets through the identifier
/// `id` and no other: the service of that identifier, if there is one.
pub open spec fn selected(services: Seq<ServiceView>, id: Seq<char>) -> Seq<ServiceView> {
    if has_service(services, id) {
        seq![services[service_position(services, id)]]
    } else {
        Seq::empty()
    }
}

/// The filter that lets through the identifier `id` and no other.
pub open spec fn id_filter_text(id: Seq<char>) -> Seq<char> {
    "ID == \""@ + id + "\""@
}

/// The filter that lets through the identifier `id` and no other, to hand
/// to a listing of services.
pub fn id_filter(id: &str) -> (filter: String)
    ensures
        filter@ == id_filter_text(id@),
{
    join("ID == \"", id).concat("\"")
}

/// A copy of `texts`.
fn copy_texts(texts: &Vec<String>) -> (copy: Vec<String>)
    ensures
        texts_view(copy@) == texts_view(texts@),
{
    let mut copy: Vec<String> = Vec::new();
    let mut i: usize = 0;
    while i < texts.len()
        invariant
            i <= texts.len(),
            copy.len() == i,
            forall|j: int| 0 <= j < i ==> (#[trigger] copy@[j])@ == texts@[j]@,
        decreases texts.len() - i,
    {
        copy.push(texts[i].clone());
        i = i + 1;
    }
    assert(texts_view(copy@) =~= texts_view(texts@));
    copy
}

/// A copy of optional tags.
fn copy_tags(tags: &Option<Vec<String>>) -> (copy: Option<Vec<String>>)
    ensures
        tags_view(copy) == tags_view(*tags),
{
    match tags {
        Some(list) => Some(copy_texts(list)),
        None => None,
    }
}

/// The services that the agent holds, in the order in which their
/// identifiers were first registered.
pub struct Services {
    entries: Vec<AgentService>,
}

impl View for Services {
    type V = Seq<ServiceView>;

    closed spec fn view(&self) -> Seq<ServiceView> {
        entries_view(self.entries@)
    }
}

impl Services {
    #[verifier::type_invariant]
    spec fn ids_differ(&self) -> bool {
        distinct_ids(entries_view(self.entries@))
    }

    /// An agent without services.
    pub fn new() -> (services: Services)
        ensures
            services@ == Seq::<ServiceView>::empty(),
    {
        let services = Services { entries: Vec::new() };
        assert(services@ =~= Seq::<ServiceView>::empty());
        services
    }

    /// Where the service `id` stands.
    fn position(&self, id: &str) -> (at: Option<usize>)
        ensures
            distinct_ids(self@),
            match at {
                Some(i) => i < self@.len() && self@[i as int].id == id@ && has_service(self@, id@)
                    && service_position(self@, id@) == i,
                None => !has_service(self@, id@),
            },
    {
        proof {
            use_type_invariant(self);
        }
        let mut i: usize = 0;
        while i < self.entries.len()
            invariant
                i <= self.entries.len(),
                distinct_ids(self@),
                self@ == entries_view(self.entries@),
                forall|j: int| 0 <= j < i ==> (#[trigger] self@[j]).id != id@,
            decreases self.entries.len() - i,
        {
            if same_text(self.entries[i].ID.as_str(), id) {
                assert(self@[i as int].id == id@);
                proof {
                    lemma_one_place(self@, id@, i as int);
                }
                return Some(i);
            }
            i = i + 1;
        }
        None
    }

    /// Registers a service, in the place of the service of its identifier
    /// where there is one. The agent refuses no registration.
    pub fn register(&mut self, reg: &RegisterAgentService) -> (response: Response)
        ensures
            answers(response, None),
            final(self)@ == registered(old(self)@, reg.listed()),
            distinct_ids(final(self)@),
    {
        let entry = AgentService {
            ID: reg.ID.clone(),
            Service: reg.Name.clone(),
            Tags: copy_tags(&reg.Tags),
            Port: reg.Port,
            Address: reg.Address.clone(),
            EnableTagOverride: reg.EnableTagOverride,
            CreateIndex: None,
            ModifyIndex: None,
            Weights: None,
        };
        assert(entry_view(entry) == reg.listed());
        let at = self.position(reg.ID.as_str());
        let mut taken = Services::new();
        std::mem::swap(self, &mut taken);
        let ghost before = taken@;
        proof {
            use_type_invariant(&taken);
            lemma_registered_distinct(before, reg.listed());
        }
        let Services { mut entries } = taken;
        match at {
            Some(i) => {
                entries.set(i, entry);
                assert(entries_view(entries@) =~= before.update(i as int, reg.listed()));
            },
            None => {
                entries.push(entry);
                assert(entries_view(entries@) =~= before.push(reg.listed()));
            },
        }
        *self = Services { entries };
        Response { status: ACCEPTED, index: None, body: Vec::new() }
    }

    /// The number of services.
    pub fn len(&self) -> (n: usize)
        ensures
            n == self@.len(),
    {
        self.entries.len()
    }

    /// What a listing shows under the filter that `id_filter` writes for
    /// `id`: the service of that identifier as it was last registered, and
    /// nothing where there is none.
    pub fn select(&self, id: &str) -> (found: Vec<AgentService>)
        ensures
            entries_view(found@) == selected(self@, id@),
    {
        let mut found: Vec<AgentService> = Vec::new();
        match self.position(id) {
            Some(i) => {
                let entry = &self.entries[i];
                let copy = AgentService {
                    ID: entry.ID.clone(),
                    Service: entry.Service.clone(),
                    Tags: copy_tags(&entry.Tags),
                    Port: entry.Port,
                    Address: entry.Address.clone(),
                    EnableTagOverride: entry.EnableTagOverride,
                    CreateIndex: None,
                    ModifyIndex: None,
                    Weights: None,
                };
                assert(entry_view(copy) == self@[i as int]);
                found.push(copy);
                assert(entries_view(found@) =~= selected(self@, id@));
            },
            None => {
                assert(entries_view(found@) =~= selected(self@, id@));
            },
        }
        found
    }
}

/// Among distinct identifiers, an identifier stands in one place only.
pub proof fn lemma_one_place(services: Seq<ServiceView>, id: Seq<char>, at: int)
    requires
        distinct_ids(services),
        0 <= at < services.len(),
        services[at].id == id,
    ensures
        has_service(services, id),
        service_position(services, id) == at,
{
    let found = service_position(services, id);
    if found < at {
        assert(services[found].id != services[at].id);
    } else if at < found {
        assert(services[at].id != services[found].id);
    }
}

/// Registering a service keeps the identifiers distinct.
pub proof fn lemma_registered_distinct(services: Seq<ServiceView>, entry: ServiceView)
    requires
        distinct_ids(services),
    ensures
        distinct_ids(registered(services, entry)),
{
    let after = registered(services, entry);
    if has_service(services, entry.id) {
        assert forall|i: int, j: int| 0 <= i < j < after.len() implies (#[trigger] after[i]).id
            != (#[trigger] after[j]).id by {
            assert(services[i].id != services[j].id);
        }
    } else {
        assert forall|i: int, j: int| 0 <= i < j < after.len() implies (#[trigger] after[i]).id
            != (#[trigger] after[j]).id by {
            if j < services.len() {
                assert(services[i].id != services[j].id);
            } else {
                assert(services[i].id != entry.id);
            }
        }
    }
}

/// A service that is registered is listed as it was registered. Under the
/// filter for its identifier the listing has exactly one entry, that of
/// the registration: the same identifier, and the same tags in the same
/// order, whatever the agent held before. The other services are listed
/// as they were.
pub proof fn lemma_registered_is_selected(
    services: Seq<ServiceView>,
    reg: RegisterAgentService,
    other: Seq<char>,
)
    requires
        distinct_ids(services),
    ensures
        selected(registered(services, reg.listed()), reg.ID@) == seq![reg.listed()],
        selected(registered(services, reg.listed()), reg.ID@).len() == 1,
        selected(registered(services, reg.listed()), reg.ID@)[0].id == reg.ID@,
        selected(registered(services, reg.listed()), reg.ID@)[0].tags == tags_view(reg.Tags),
        other != reg.ID@ ==> selected(registered(services, reg.listed()), other) == selected(
            services,
            other,
        ),
{
    let entry = reg.listed();
    let after = registered(services, entry);
    lemma_registered_distinct(services, entry);
    let at = if has_service(services, entry.id) {
        service_position(services, entry.id)
    } else {
        services.len() as int
    };
    assert(after[at] == entry);
    lemma_one_place(after, entry.id, at);
    if other != entry.id {
        if has_service(services, other) {
            let there = service_position(services, other);
            assert(after[there] == services[there]);
            lemma_one_place(after, other, there);
        } else {
            if has_service(after, other) {
                let there = service_position(after, other);
                assert(there != at);
                assert(services[there].id == other);
            }
        }
    }
}

} // verus!
