//! The acquisition state machine: once a capacity hit is observed it
//! launches, waits a fixed activation delay, and re-queries the instance
//! detail to surface the assigned network address. The machine only decides;
//! the caller performs each returned action and feeds the outcome back as
//! the next event.

use vstd::prelude::*;
use vstd::pervasive::unreached;
use crate::catalog::{capacity_hit, chosen_region, lookup_type, spec_lookup};
use crate::model::{
    AcquireError, CatalogEntry, ConnectionReport, Instance, LaunchRequest, connection_report,
    make_launch_request,
};

verus! {

/// Fixed wait between issuing a launch and expecting the instance to have a
/// usable network address.
pub const ACTIVATION_DELAY_SECS: u64 = 120;

/// Where the acquisition stands.
#[derive(PartialEq, Eq, Debug)]
pub enum Phase {
    /// Still polling the catalog for a capacity hit.
    Searching,
    /// A launch request for this region is in flight.
    Launching { region_name: String },
    /// The instance exists; waiting out the activation delay before the one
    /// detail query.
    AwaitingActivation { instance_id: String, region_name: String },
    /// The flow ended with a connection report.
    Done { report: ConnectionReport },
    /// An error aborted the flow.
    Failed { error: AcquireError },
}

/// The outcome of the action the caller last performed.
#[derive(PartialEq, Eq, Debug)]
pub enum Event {
    /// A catalog query finished: the full, fresh catalog, or the error that
    /// aborted it.
    CatalogFetched(Result<Vec<CatalogEntry>, AcquireError>),
    /// The launch call finished: the new instance ids, or the error.
    LaunchFinished(Result<Vec<String>, AcquireError>),
    /// The detail query after the activation wait finished.
    DetailFetched(Result<Instance, AcquireError>),
}

/// What the caller must do next.
#[derive(PartialEq, Eq, Debug)]
pub enum Action {
    /// No capacity yet: report the status record, sleep out the rest of the
    /// interval, query the catalog again.
    ReportAndWait,
    /// Send this launch request.
    PerformLaunch(LaunchRequest),
    /// Sleep `delay_secs`, then query the detail of this instance.
    AwaitActivation { delay_secs: u64, instance_id: String },
    /// The machine is in a terminal phase; nothing more to do.
    Halt,
}

/// Drives one acquisition of one instance type, from searching to a
/// connection report. Any error in any phase aborts the whole flow.
pub struct AcquisitionOrchestrator {
    pub instance_type_name: String,
    pub ssh_key_name: String,
    pub phase: Phase,
}

impl AcquisitionOrchestrator {
    /// Which event each phase is waiting for.
    pub open spec fn accepts(self, event: Event) -> bool {
        match event {
            Event::CatalogFetched(_) => self.phase is Searching,
            Event::LaunchFinished(_) => self.phase is Launching,
            Event::DetailFetched(_) => self.phase is AwaitingActivation,
        }
    }

    /// The find-then-start flow: begin by searching for capacity.
    pub fn searching(instance_type_name: String, ssh_key_name: String) -> (r: Self)
        ensures
            r.instance_type_name == instance_type_name,
            r.ssh_key_name == ssh_key_name,
            r.phase is Searching,
    {
        AcquisitionOrchestrator { instance_type_name, ssh_key_name, phase: Phase::Searching }
    }

    /// The direct-start flow: a launch request for this region has already
    /// been sent, so the machine begins waiting for its outcome.
    pub fn launching(instance_type_name: String, ssh_key_name: String, region_name: String) -> (r:
        Self)
        ensures
            r.instance_type_name == instance_type_name,
            r.ssh_key_name == ssh_key_name,
            r.phase == (Phase::Launching { region_name }),
    {
        AcquisitionOrchestrator {
            instance_type_name,
            ssh_key_name,
            phase: Phase::Launching { region_name },
        }
    }

    /// One transition of the machine.
    ///
    /// While searching, a capacity hit — and nothing else — moves the
    /// machine forward, and the launch it requests goes to the first region
    /// of the freshly observed list, with quantity 1 and the one configured
    /// SSH key; a fruitless tick changes nothing and requests no launch. A
    /// launch outcome with at least one id starts the activation wait for
    /// the first id; the detail that ends the wait decides the final report
    /// by whether it carries an address. Every error ends the flow in
    /// Failed with that error.
    pub fn step(&mut self, event: Event) -> (action: Action)
        requires
            old(self).accepts(event),
        ensures
            final(self).instance_type_name == old(self).instance_type_name,
            final(self).ssh_key_name == old(self).ssh_key_name,
            event matches Event::CatalogFetched(Ok(catalog)) ==> {
                &&& capacity_hit(catalog@, old(self).instance_type_name@) ==> {
                    &&& final(self).phase matches Phase::Launching { region_name }
                        && region_name == chosen_region(
                        catalog@,
                        old(self).instance_type_name@,
                    ).name
                    &&& action matches Action::PerformLaunch(req) && {
                        &&& req.instance_type_name == old(self).instance_type_name
                        &&& req.region_name == chosen_region(
                            catalog@,
                            old(self).instance_type_name@,
                        ).name
                        &&& req.ssh_key_names@ == seq![old(self).ssh_key_name]
                        &&& req.quantity == 1
                    }
                }
                &&& !capacity_hit(catalog@, old(self).instance_type_name@) ==> final(self).phase
                    is Searching && action is ReportAndWait
            },
            event matches Event::CatalogFetched(Err(e)) ==> final(self).phase == (Phase::Failed {
                error: e,
            }) && action is Halt,
            event matches Event::LaunchFinished(Ok(ids)) ==> {
                &&& ids@.len() > 0 ==> {
                    &&& final(self).phase matches Phase::AwaitingActivation {
                        instance_id,
                        region_name,
                    } && instance_id == ids@[0] && (old(self).phase matches Phase::Launching {
                        region_name: observed,
                    } && region_name == observed)
                    &&& action matches Action::AwaitActivation { delay_secs, instance_id }
                        && delay_secs == ACTIVATION_DELAY_SECS && instance_id == ids@[0]
                }
                &&& ids@.len() == 0 ==> final(self).phase == (Phase::Failed {
                    error: AcquireError::Parse,
                }) && action is Halt
            },
            event matches Event::LaunchFinished(Err(e)) ==> final(self).phase == (Phase::Failed {
                error: e,
            }) && action is Halt,
            event matches Event::DetailFetched(Ok(detail)) ==> {
                &&& detail.ip matches Some(address) ==> final(self).phase == (Phase::Done {
                    report: ConnectionReport::Endpoint { address },
                })
                &&& detail.ip is None ==> final(self).phase == (Phase::Done {
                    report: ConnectionReport::AddressPending,
                })
                &&& action is Halt
            },
            event matches Event::DetailFetched(Err(e)) ==> final(self).phase == (Phase::Failed {
                error: e,
            }) && action is Halt,
    {
        match event {
            Event::CatalogFetched(res) => match res {
                Ok(catalog) => {
                    let found = lookup_type(&catalog, &self.instance_type_name);
                    match found {
                        Some(entry) => {
                            if entry.regions.len() > 0 {
                                let region = entry.regions[0].clone();
                                let req = make_launch_request(
                                    &self.instance_type_name,
                                    &region.name,
                                    &self.ssh_key_name,
                                );
                                self.phase = Phase::Launching { region_name: region.name };
                                Action::PerformLaunch(req)
                            } else {
                                Action::ReportAndWait
                            }
                        },
                        None => Action::ReportAndWait,
                    }
                },
                Err(e) => {
                    self.phase = Phase::Failed { error: e };
                    Action::Halt
                },
            },
            Event::LaunchFinished(res) => match res {
                Ok(ids) => {
                    if ids.len() > 0 {
                        let instance_id = ids[0].clone();
                        let region_name = match &self.phase {
                            Phase::Launching { region_name } => region_name.clone(),
                            _ => unreached(),
                        };
                        self.phase = Phase::AwaitingActivation {
                            instance_id: instance_id.clone(),
                            region_name,
                        };
                        Action::AwaitActivation {
                            delay_secs: ACTIVATION_DELAY_SECS,
                            instance_id,
                        }
                    } else {
                        self.phase = Phase::Failed { error: AcquireError::Parse };
                        Action::Halt
                    }
                },
                Err(e) => {
                    self.phase = Phase::Failed { error: e };
                    Action::Halt
                },
            },
            Event::DetailFetched(res) => match res {
                Ok(detail) => {
                    let report = connection_report(&detail);
                    self.phase = Phase::Done { report };
                    Action::Halt
                },
                Err(e) => {
                    self.phase = Phase::Failed { error: e };
                    Action::Halt
                },
            },
        }
    }
}

/// Plans the standalone start flow from a fresh catalog: the launch request
/// for the first region with capacity, or NotFound when the catalog lacks
/// the type, or NoCapacity when its region list is empty — in which case no
/// launch may be issued at all.
pub fn plan_direct_start(
    catalog: &Vec<CatalogEntry>,
    instance_type_name: &String,
    ssh_key_name: &String,
) -> (r: Result<LaunchRequest, AcquireError>)
    ensures
        spec_lookup(catalog@, instance_type_name@) is None ==> r == Err::<
            LaunchRequest,
            AcquireError,
        >(AcquireError::NotFound),
        (spec_lookup(catalog@, instance_type_name@) matches Some(e) && e.regions@.len() == 0)
            ==> r == Err::<LaunchRequest, AcquireError>(AcquireError::NoCapacity),
        capacity_hit(catalog@, instance_type_name@) ==> (r matches Ok(req) && {
            &&& req.instance_type_name == *instance_type_name
            &&& req.region_name == chosen_region(catalog@, instance_type_name@).name
            &&& req.ssh_key_names@ == seq![*ssh_key_name]
            &&& req.quantity == 1
        }),
{
    match lookup_type(catalog, instance_type_name) {
        None => Err(AcquireError::NotFound),
        Some(entry) => {
            if entry.regions.len() == 0 {
                Err(AcquireError::NoCapacity)
            } else {
                Ok(
                    make_launch_request(
                        instance_type_name,
                        &entry.regions[0].name,
                        ssh_key_name,
                    ),
                )
            }
        },
    }
}

} // verus!
