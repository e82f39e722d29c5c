//! Updating a domain: when the zone is verified again and when the new name
//! has to be checked for conflicts.
use vstd::prelude::*;
use crate::text::{chars_eq, chars_of, extend_chars, string_of};

verus! {

/// The zone has to be verified again whenever provider credentials change:
/// when a provider, zone id or credential is sent.
pub fn needs_reverify(provider_sent: bool, zone_id_sent: bool, credential_sent: bool) -> (res: bool)
    ensures
        res == (provider_sent || zone_id_sent || credential_sent),
{
    provider_sent || zone_id_sent || credential_sent
}

/// Whether a rename has to be checked against existing domains: a new name
/// was sent and differs from the current one.
pub fn rename_needs_check(new_name: Option<&str>, current: &str) -> (res: bool)
    ensures
        res == (new_name matches Some(n) && n@ != current@),
{
    match new_name {
        Some(n) => !chars_eq(&chars_of(n), &chars_of(current)),
        None => false,
    }
}

/// The answer to the provider's verdict, the zone verification and the
/// name lookup of a domain write.
pub enum PatchEvent {
    /// Building the provider client succeeded, or failed with this message.
    ClientBuilt(Result<(), String>),
    /// Verifying the zone succeeded, or failed with this message.
    Verified(Result<(), String>),
    /// Whether another domain already has the new name.
    NameTaken(bool),
}

/// The next step of a domain write.
#[derive(Clone, Debug)]
pub enum PatchAction {
    /// Build the provider client from the resulting provider, zone id and
    /// credential.
    BuildClient,
    /// Verify the zone with the client.
    Verify,
    /// Look for another domain with this name.
    CheckName(String),
    /// Write the domain.
    Update,
    /// Answer with this status and message.
    Refuse { status: u16, message: String },
}

/// Where a domain write stands.
#[derive(Clone, Copy, PartialEq, Eq, Structural, Debug)]
pub enum PatchStage {
    Client,
    Verify,
    Name,
    Finished,
}

/// The message of a zone that could not be verified.
pub open spec fn verify_failed_message(detail: Seq<char>) -> Seq<char> {
    "failed to verify zone: "@ + detail
}

/// The message of a name another domain has.
pub open spec fn name_taken_message() -> Seq<char> {
    "a domain with this name already exists"@
}

/// The checks of a domain write, in the order they are answered: a new or
/// changed provider configuration must build a client (else 400 with its
/// message) and verify the zone (else 400), then a new name must not belong
/// to another domain (else 409); only then is the domain written.
pub struct DomainPatch {
    stage: PatchStage,
    name: Option<String>,
}

impl DomainPatch {
    pub closed spec fn spec_stage(&self) -> PatchStage {
        self.stage
    }

    /// The name still to be checked, if any.
    pub closed spec fn spec_name(&self) -> Option<Seq<char>> {
        match self.name {
            Some(n) => Some(n@),
            None => None,
        }
    }

    /// The action once the zone is settled: the name check, or the write.
    pub open spec fn after_zone_is(&self, a: PatchAction) -> bool {
        match self.spec_name() {
            Some(n) => a matches PatchAction::CheckName(m) && m@ == n && self.spec_stage()
                == PatchStage::Name,
            None => a is Update && self.spec_stage() == PatchStage::Finished,
        }
    }

    /// The event the current action waits for.
    pub open spec fn expects(&self, e: &PatchEvent) -> bool {
        match self.spec_stage() {
            PatchStage::Client => e is ClientBuilt,
            PatchStage::Verify => e is Verified,
            PatchStage::Name => e is NameTaken,
            PatchStage::Finished => false,
        }
    }

    fn after_zone(&mut self) -> (res: PatchAction)
        ensures
            final(self).spec_name() == old(self).spec_name(),
            final(self).after_zone_is(res),
    {
        match &self.name {
            Some(n) => {
                let action = PatchAction::CheckName(n.clone());
                self.stage = PatchStage::Name;
                action
            },
            None => {
                self.stage = PatchStage::Finished;
                PatchAction::Update
            },
        }
    }

    /// Starts an update: the zone is verified again when a provider, zone id
    /// or credential was sent; a new name is checked when it differs from
    /// the current one.
    pub fn start_update(
        provider_sent: bool,
        zone_id_sent: bool,
        credential_sent: bool,
        new_name: Option<&str>,
        current: &str,
    ) -> (res: (DomainPatch, PatchAction))
        ensures
            res.0.spec_name() == (match new_name {
                Some(n) => if n@ != current@ {
                    Some(n@)
                } else {
                    None
                },
                None => None,
            }),
            (provider_sent || zone_id_sent || credential_sent) ==> res.1 is BuildClient
                && res.0.spec_stage() == PatchStage::Client,
            !(provider_sent || zone_id_sent || credential_sent) ==> res.0.after_zone_is(res.1),
    {
        let name = if rename_needs_check(new_name, current) {
            match new_name {
                Some(n) => Some(n.to_string()),
                None => None,
            }
        } else {
            None
        };
        let mut run = DomainPatch { stage: PatchStage::Client, name };
        if needs_reverify(provider_sent, zone_id_sent, credential_sent) {
            (run, PatchAction::BuildClient)
        } else {
            let action = run.after_zone();
            (run, action)
        }
    }

    /// Starts adding a domain: the zone is always verified and the name is
    /// always checked.
    pub fn start_create(name: &str) -> (res: (DomainPatch, PatchAction))
        ensures
            res.0.spec_name() == Some(name@),
            res.0.spec_stage() == PatchStage::Client,
            res.1 is BuildClient,
    {
        (DomainPatch { stage: PatchStage::Client, name: Some(name.to_string()) }, PatchAction::BuildClient)
    }

    /// Takes in the answer to the last action and decides what comes next.
    pub fn step(&mut self, event: PatchEvent) -> (res: PatchAction)
        requires
            old(self).expects(&event),
        ensures
            final(self).spec_name() == old(self).spec_name(),
            match event {
                PatchEvent::ClientBuilt(outcome) => match outcome {
                    Ok(()) => res is Verify && final(self).spec_stage() == PatchStage::Verify,
                    Err(m) => res matches PatchAction::Refuse { status, message } && status == 400
                        && message@ == m@ && final(self).spec_stage() == PatchStage::Finished,
                },
                PatchEvent::Verified(outcome) => match outcome {
                    Ok(()) => final(self).after_zone_is(res),
                    Err(m) => res matches PatchAction::Refuse { status, message } && status == 400
                        && message@ == verify_failed_message(m@) && final(self).spec_stage()
                        == PatchStage::Finished,
                },
                PatchEvent::NameTaken(taken) => final(self).spec_stage() == PatchStage::Finished
                    && if taken {
                    res matches PatchAction::Refuse { status, message } && status == 409
                        && message@ == name_taken_message()
                } else {
                    res is Update
                },
            },
    {
        match event {
            PatchEvent::ClientBuilt(outcome) => match outcome {
                Ok(()) => {
                    self.stage = PatchStage::Verify;
                    PatchAction::Verify
                },
                Err(m) => {
                    self.stage = PatchStage::Finished;
                    PatchAction::Refuse { status: 400, message: m }
                },
            },
            PatchEvent::Verified(outcome) => match outcome {
                Ok(()) => self.after_zone(),
                Err(m) => {
                    self.stage = PatchStage::Finished;
                    let mut text = chars_of("failed to verify zone: ");
                    extend_chars(&mut text, &chars_of(m.as_str()));
                    PatchAction::Refuse { status: 400, message: string_of(&text) }
                },
            },
            PatchEvent::NameTaken(taken) => {
                self.stage = PatchStage::Finished;
                if taken {
                    PatchAction::Refuse {
                        status: 409,
                        message: "a domain with this name already exists".to_string(),
                    }
                } else {
                    PatchAction::Update
                }
            },
        }
    }
}

} // verus!
