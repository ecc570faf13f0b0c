use crate::registered_server::RegisteredServer;
use crate::websocket::messages::RegisterServerRequest;
use vstd::prelude::*;

verus! {

/// A server asks to be registered (`register`) or unregistered, as a server of a type.
#[derive(Debug)]
pub struct RegisterServerBody {
    pub register: bool,
    pub server_type: String,
}

impl Clone for RegisterServerBody {
    fn clone(&self) -> (r: Self)
        ensures
            r == *self,
    {
        RegisterServerBody { register: self.register, server_type: self.server_type.clone() }
    }
}

/// Where a registration stands.
#[derive(Debug)]
pub enum RegistrationStep {
    /// Registering: waiting for the panel's host and port of the server.
    AwaitingDetails,
    /// Registering: waiting while an earlier record of the server is deleted.
    ClearingOld { host: String, port: u16 },
    /// Registering: waiting while the new record is inserted.
    Inserting { host: String, port: u16 },
    /// Unregistering: waiting for the stored record of the server.
    AwaitingRecord,
    /// Unregistering: waiting while the stored record is deleted.
    Deleting { host: String, port: u16 },
    /// Done: the last action was the answer.
    Finished,
}

/// What the outside world answered to the last action.
#[derive(Debug)]
pub enum RegistrationEvent {
    /// The panel's host and port of the server, or why they could not be had.
    DetailsFetched(Result<(String, u16), String>),
    /// Whether deleting the server's record succeeded.
    RecordDeleted(bool),
    /// Whether inserting the server's record succeeded.
    RecordInserted(bool),
    /// The stored record of the server; none where it is missing or the lookup failed.
    RecordFound(Option<RegisteredServer>),
}

/// What to do next.
#[derive(Debug)]
pub enum RegistrationAction {
    /// Ask the panel for the server's host and port.
    FetchDetails,
    /// Delete the record stored under the server's identifier.
    DeleteRecord,
    /// Insert this record.
    InsertRecord(RegisteredServer),
    /// Look up the record stored under the server's identifier.
    FindRecord,
    /// Announce this to every connected server, then answer success.
    Announce(RegisterServerRequest),
    /// Answer with this failure.
    Fail(String),
}

/// The registration or unregistration of one server, driven by the events that answer
/// its actions.
pub struct ServerRegistration {
    pub identifier: String,
    pub body: RegisterServerBody,
    pub step: RegistrationStep,
}

/// Whether `event` answers the action that leads to `step`.
pub open spec fn answers(step: RegistrationStep, event: RegistrationEvent) -> bool {
    match step {
        RegistrationStep::AwaitingDetails => event is DetailsFetched,
        RegistrationStep::ClearingOld { .. } => event is RecordDeleted,
        RegistrationStep::Inserting { .. } => event is RecordInserted,
        RegistrationStep::AwaitingRecord => event is RecordFound,
        RegistrationStep::Deleting { .. } => event is RecordDeleted,
        RegistrationStep::Finished => false,
    }
}

/// How many more events a registration at `step` takes before it answers.
pub open spec fn events_left(step: RegistrationStep) -> nat {
    match step {
        RegistrationStep::AwaitingDetails => 3,
        RegistrationStep::ClearingOld { .. } => 2,
        RegistrationStep::Inserting { .. } => 1,
        RegistrationStep::AwaitingRecord => 2,
        RegistrationStep::Deleting { .. } => 1,
        RegistrationStep::Finished => 0,
    }
}

/// An action that answers the request: an announcement (then success) or a failure.
pub open spec fn is_answer(action: RegistrationAction) -> bool {
    action is Announce || action is Fail
}

/// The announcement that the server at `host:port` was registered or unregistered.
pub open spec fn announcement(
    body: RegisterServerBody,
    identifier: String,
    host: String,
    port: u16,
) -> RegisterServerRequest {
    RegisterServerRequest {
        register: body.register,
        server_type: body.server_type,
        identifier: identifier,
        host: host,
        port: port,
    }
}

/// Starts the registration or unregistration of the server `identifier`: a server that
/// registers is first looked up at the panel; one that unregisters, in the database.
pub fn server_registrations(identifier: String, body: RegisterServerBody) -> (r: (
    ServerRegistration,
    RegistrationAction,
))
    ensures
        r.0.identifier == identifier,
        r.0.body == body,
        body.register ==> r.0.step is AwaitingDetails && r.1 is FetchDetails,
        !body.register ==> r.0.step is AwaitingRecord && r.1 is FindRecord,
        !is_answer(r.1),
        events_left(r.0.step) <= 3,
{
    if body.register {
        (
            ServerRegistration { identifier, body, step: RegistrationStep::AwaitingDetails },
            RegistrationAction::FetchDetails,
        )
    } else {
        (
            ServerRegistration { identifier, body, step: RegistrationStep::AwaitingRecord },
            RegistrationAction::FindRecord,
        )
    }
}

/// A registration is answered after at most three events: every event brings it closer
/// to its answer, and it starts at most three events away. So a run of steps, each
/// reached from the one before by an event, holds at most four steps.
pub proof fn lemma_answered_within_three_events(steps: Seq<RegistrationStep>)
    requires
        steps.len() >= 1,
        events_left(steps[0]) <= 3,
        forall|i: int|
            0 <= i < steps.len() - 1 ==> events_left(#[trigger] steps[i + 1]) < events_left(
                steps[i],
            ),
    ensures
        steps.len() <= 4,
        events_left(steps[steps.len() - 1]) + steps.len() <= 4,
    decreases steps.len(),
{
    if steps.len() > 1 {
        let shorter = steps.drop_last();
        assert forall|i: int| 0 <= i < shorter.len() - 1 implies events_left(
            #[trigger] shorter[i + 1],
        ) < events_left(shorter[i]) by {
            assert(shorter[i + 1] == steps[i + 1]);
        }
        lemma_answered_within_three_events(shorter);
        let k = steps.len() - 2;
        assert(events_left(steps[k + 1]) < events_left(steps[k]));
        assert(shorter[shorter.len() - 1] == steps[k]);
    }
}

impl ServerRegistration {
    /// Takes the answer to the last action and decides the next one.
    pub fn handle(&mut self, event: RegistrationEvent) -> (action: RegistrationAction)
        requires
            answers(old(self).step, event),
        ensures
            final(self).identifier == old(self).identifier,
            final(self).body == old(self).body,
            events_left(final(self).step) < events_left(old(self).step),
            is_answer(action) <==> final(self).step is Finished,
            action matches RegistrationAction::Announce(a) ==> {
                &&& a.register == old(self).body.register
                &&& a.server_type == old(self).body.server_type
                &&& a.identifier == old(self).identifier
            },
            match (old(self).step, event) {
                (
                    RegistrationStep::AwaitingDetails,
                    RegistrationEvent::DetailsFetched(Err(e)),
                ) => final(self).step is Finished && action == RegistrationAction::Fail(e),
                (
                    RegistrationStep::AwaitingDetails,
                    RegistrationEvent::DetailsFetched(Ok((host, port))),
                ) => final(self).step == (RegistrationStep::ClearingOld { host, port })
                    && action is DeleteRecord,
                (RegistrationStep::ClearingOld { host, port }, RegistrationEvent::RecordDeleted(_)) => {
                    &&& final(self).step == (RegistrationStep::Inserting { host, port })
                    &&& action == RegistrationAction::InsertRecord(
                        RegisteredServer {
                            identifier: old(self).identifier,
                            server_type: old(self).body.server_type,
                            host: host,
                            port: port,
                        },
                    )
                },
                (RegistrationStep::Inserting { host, port }, RegistrationEvent::RecordInserted(ok)) => {
                    &&& final(self).step is Finished
                    &&& ok ==> action == RegistrationAction::Announce(
                        announcement(old(self).body, old(self).identifier, host, port),
                    )
                    &&& !ok ==> (action matches RegistrationAction::Fail(m) && m@
                        == "Could not insert server"@)
                },
                (RegistrationStep::AwaitingRecord, RegistrationEvent::RecordFound(found)) => {
                    match found {
                        Some(record) => final(self).step == (RegistrationStep::Deleting {
                            host: record.host,
                            port: record.port,
                        }) && action is DeleteRecord,
                        None => final(self).step is Finished && (action matches RegistrationAction::Fail(m)
                            && m@ == "Server not found"@),
                    }
                },
                (RegistrationStep::Deleting { host, port }, RegistrationEvent::RecordDeleted(ok)) => {
                    &&& final(self).step is Finished
                    &&& ok ==> action == RegistrationAction::Announce(
                        announcement(old(self).body, old(self).identifier, host, port),
                    )
                    &&& !ok ==> (action matches RegistrationAction::Fail(m) && m@
                        == "Could not delete server"@)
                },
                _ => false,
            },
    {
        let mut step = RegistrationStep::Finished;
        std::mem::swap(&mut step, &mut self.step);
        match (step, event) {
            (RegistrationStep::AwaitingDetails, RegistrationEvent::DetailsFetched(fetched)) => {
                match fetched {
                    Err(e) => RegistrationAction::Fail(e),
                    Ok((host, port)) => {
                        self.step = RegistrationStep::ClearingOld { host, port };
                        RegistrationAction::DeleteRecord
                    },
                }
            },
            (RegistrationStep::ClearingOld { host, port }, RegistrationEvent::RecordDeleted(_)) => {
                let record = RegisteredServer {
                    identifier: self.identifier.clone(),
                    server_type: self.body.server_type.clone(),
                    host: host.clone(),
                    port,
                };
                self.step = RegistrationStep::Inserting { host, port };
                RegistrationAction::InsertRecord(record)
            },
            (RegistrationStep::Inserting { host, port }, RegistrationEvent::RecordInserted(ok)) => {
                if ok {
                    RegistrationAction::Announce(self.announce(host, port))
                } else {
                    RegistrationAction::Fail(String::from_str("Could not insert server"))
                }
            },
            (RegistrationStep::AwaitingRecord, RegistrationEvent::RecordFound(found)) => {
                match found {
                    Some(record) => {
                        self.step = RegistrationStep::Deleting {
                            host: record.host,
                            port: record.port,
                        };
                        RegistrationAction::DeleteRecord
                    },
                    None => RegistrationAction::Fail(String::from_str("Server not found")),
                }
            },
            (RegistrationStep::Deleting { host, port }, RegistrationEvent::RecordDeleted(ok)) => {
                if ok {
                    RegistrationAction::Announce(self.announce(host, port))
                } else {
                    RegistrationAction::Fail(String::from_str("Could not delete server"))
                }
            },
            // The precondition rules out every other pairing of step and event.
            (_, _) => RegistrationAction::Fail(String::from_str("Unexpected event")),
        }
    }

    /// The announcement of this registration for the server at `host:port`.
    fn announce(&self, host: String, port: u16) -> (r: RegisterServerRequest)
        ensures
            r == announcement(self.body, self.identifier, host, port),
            r.register == self.body.register,
            r.server_type == self.body.server_type,
            r.identifier == self.identifier,
            r.host == host,
            r.port == port,
    {
        RegisterServerRequest {
            register: self.body.register,
            server_type: self.body.server_type.clone(),
            identifier: self.identifier.clone(),
            host,
            port,
        }
    }
}

} // verus!

verus! {

/// The announcement that lists a stored record as a registered server.
pub open spec fn listed(record: RegisteredServer) -> RegisterServerRequest {
    RegisterServerRequest {
        register: true,
        server_type: record.server_type,
        identifier: record.identifier,
        host: record.host,
        port: record.port,
    }
}

/// The record that an announcement names: its server's identifier, type, host and port.
pub open spec fn record_named(a: RegisterServerRequest) -> RegisteredServer {
    RegisteredServer {
        identifier: a.identifier,
        server_type: a.server_type,
        host: a.host,
        port: a.port,
    }
}

/// Listing a stored record announces that very server as registered: the record named by
/// the announcement is the stored record, field for field, and it registers.
pub proof fn lemma_listing_names_the_record(record: RegisteredServer)
    ensures
        record_named(listed(record)) == record,
        listed(record).register,
        listed(record).identifier == record.identifier,
        listed(record).server_type == record.server_type,
        listed(record).host == record.host,
        listed(record).port == record.port,
{
}

/// An announcement names the server it is about, as the request described it: its
/// identifier, the requested type and registration, and the given host and port; the
/// record it names is the one a registration inserts for that host and port.
pub proof fn lemma_announcement_names_the_request(
    body: RegisterServerBody,
    identifier: String,
    host: String,
    port: u16,
)
    ensures
        announcement(body, identifier, host, port).register == body.register,
        announcement(body, identifier, host, port).server_type == body.server_type,
        announcement(body, identifier, host, port).identifier == identifier,
        announcement(body, identifier, host, port).host == host,
        announcement(body, identifier, host, port).port == port,
        record_named(announcement(body, identifier, host, port)) == (RegisteredServer {
            identifier: identifier,
            server_type: body.server_type,
            host: host,
            port: port,
        }),
{
}

/// Listing distinct records gives distinct announcements: no two stored records are
/// listed as the same server.
pub proof fn lemma_listing_is_injective(a: RegisteredServer, b: RegisteredServer)
    requires
        listed(a) == listed(b),
    ensures
        a == b,
{
    lemma_listing_names_the_record(a);
    lemma_listing_names_the_record(b);
}

/// Whether no record before position `n` failed to load.
pub open spec fn loaded_up_to(items: Seq<Result<RegisteredServer, String>>, n: int) -> bool {
    forall|j: int| 0 <= j < n ==> (#[trigger] items[j]) is Ok
}

/// The list of registered servers from the records that the database hands out one by
/// one: a failed lookup yields `Could not get server registrations`; a record that fails
/// to load yields its error (the first such); otherwise every record is listed, in order.
pub fn get_server_registrations<E>(found: Result<Vec<Result<RegisteredServer, String>>, E>) -> (r:
    Result<Vec<RegisterServerRequest>, String>)
    ensures
        match found {
            Err(_) => r matches Err(m) && m@ == "Could not get server registrations"@,
            Ok(items) => {
                &&& (loaded_up_to(items@, items@.len() as int) ==> (r matches Ok(list)
                    && list@.len() == items@.len() && forall|j: int|
                    0 <= j < items@.len() ==> #[trigger] list@[j] == listed(items@[j]->Ok_0)))
                &&& (loaded_up_to(items@, items@.len() as int) ==> (r matches Ok(list)
                    && forall|j: int|
                    0 <= j < list@.len() ==> {
                        &&& (#[trigger] list@[j]).register
                        &&& list@[j].identifier == items@[j]->Ok_0.identifier
                        &&& list@[j].server_type == items@[j]->Ok_0.server_type
                        &&& list@[j].host == items@[j]->Ok_0.host
                        &&& list@[j].port == items@[j]->Ok_0.port
                    }))
                &&& (!loaded_up_to(items@, items@.len() as int) ==> exists|i: int|
                    0 <= i < items@.len() && loaded_up_to(items@, i) && #[trigger] items@[i]
                        == Err::<RegisteredServer, String>(r->Err_0) && r is Err)
            },
        },
{
    match found {
        Err(_) => Err(String::from_str("Could not get server registrations")),
        Ok(items) => {
            let mut list: Vec<RegisterServerRequest> = Vec::new();
            let mut i: usize = 0;
            while i < items.len()
                invariant
                    found matches Ok(v) && v == items,
                    i <= items@.len(),
                    loaded_up_to(items@, i as int),
                    list@.len() == i,
                    forall|j: int| 0 <= j < i ==> #[trigger] list@[j] == listed(items@[j]->Ok_0),
                decreases items.len() - i,
            {
                match &items[i] {
                    Ok(record) => {
                        list.push(
                            RegisterServerRequest {
                                register: true,
                                server_type: record.server_type.clone(),
                                identifier: record.identifier.clone(),
                                host: record.host.clone(),
                                port: record.port,
                            },
                        );
                    },
                    Err(e) => {
                        let r: Result<Vec<RegisterServerRequest>, String> = Err(e.clone());
                        assert(items@[i as int] == Err::<RegisteredServer, String>(r->Err_0));
                        return r;
                    },
                }
                i = i + 1;
            }
            Ok(list)
        },
    }
}

} // verus!
