use crate::account::{Account, Identity, UpdateOutcome};
use crate::errors::CustomError;
use crate::events::{ContractExecuted, ContractInitialized, ContractStatusUpdated, ContractUpdated};
use crate::text::byte_len;
use vstd::prelude::*;

verus! {

/// The most bytes that a contract's name may take.
pub const MAX_NAME_LEN: usize = 50;

/// The most bytes that a contract's description may take.
pub const MAX_DESCRIPTION_LEN: usize = 200;

/// The most bytes that a contract's type may take.
pub const MAX_CONTRACT_TYPE_LEN: usize = 30;

/// A civic service contract. One authority owns it for as long as it lives.
#[derive(Clone, Debug, PartialEq, Eq)]
pub struct Contract {
    pub name: String,
    pub description: String,
    pub contract_type: String,
    pub authority: Identity,
    pub is_active: bool,
    pub created_at: i64,
    pub updated_at: i64,
    /// Starts at 1 and grows by one with every applied change of detail.
    pub version: u32,
    /// Grows by one with every execution.
    pub execution_count: u32,
}

/// Whether a proposed text differs from the one in place. Nothing proposed
/// replaces nothing.
pub open spec fn replaces(current: String, proposed: Option<String>) -> bool {
    proposed matches Some(text) && text@ != current@
}

/// The text in place after a proposal: the proposed one where it differs,
/// else the current one.
pub open spec fn merged(current: String, proposed: Option<String>) -> String {
    if replaces(current, proposed) {
        proposed->0
    } else {
        current
    }
}

impl Contract {
    /// The verdict on a name, a description and a type taken together. The
    /// three lengths are judged first, in that order, then the two texts that
    /// may not be empty, the name before the type. Each failure has an error
    /// of its own, which names the field and what is wrong with it.
    pub open spec fn spec_validate_contract_data(
        name: Seq<char>,
        description: Seq<char>,
        contract_type: Seq<char>,
    ) -> Result<(), CustomError> {
        if byte_len(name) > MAX_NAME_LEN {
            Err(CustomError::NameTooLong)
        } else if byte_len(description) > MAX_DESCRIPTION_LEN {
            Err(CustomError::DescriptionTooLong)
        } else if byte_len(contract_type) > MAX_CONTRACT_TYPE_LEN {
            Err(CustomError::ContractTypeTooLong)
        } else if name.len() == 0 {
            Err(CustomError::EmptyName)
        } else if contract_type.len() == 0 {
            Err(CustomError::EmptyContractType)
        } else {
            Ok(())
        }
    }

    /// A contract is well formed when its three texts pass validation and its
    /// version has not fallen under the first.
    pub open spec fn well_formed(&self) -> bool {
        &&& Self::spec_validate_contract_data(self.name@, self.description@, self.contract_type@)
            is Ok
        &&& self.version >= 1
    }

    /// Checks a name, a description and a type against their limits.
    pub fn validate_contract_data(name: &str, description: &str, contract_type: &str) -> (r: Result<
        (),
        CustomError,
    >)
        ensures
            r == Self::spec_validate_contract_data(name@, description@, contract_type@),
    {
        if name.as_bytes().len() > MAX_NAME_LEN {
            return Err(CustomError::NameTooLong);
        }
        if description.as_bytes().len() > MAX_DESCRIPTION_LEN {
            return Err(CustomError::DescriptionTooLong);
        }
        if contract_type.as_bytes().len() > MAX_CONTRACT_TYPE_LEN {
            return Err(CustomError::ContractTypeTooLong);
        }
        if name.is_empty() {
            return Err(CustomError::EmptyName);
        }
        if contract_type.is_empty() {
            return Err(CustomError::EmptyContractType);
        }
        Ok(())
    }

    /// A name, a description and a type that fit their limits, the name and
    /// the type not empty, pass validation.
    pub proof fn lemma_details_in_range_accepted(
        name: Seq<char>,
        description: Seq<char>,
        contract_type: Seq<char>,
    )
        requires
            0 < name.len(),
            byte_len(name) <= MAX_NAME_LEN,
            byte_len(description) <= MAX_DESCRIPTION_LEN,
            0 < contract_type.len(),
            byte_len(contract_type) <= MAX_CONTRACT_TYPE_LEN,
        ensures
            Self::spec_validate_contract_data(name, description, contract_type) is Ok,
    {
    }

    /// Of a name, a description and a type, a single one that breaks its
    /// limit, by however little, is rejected with an error of its own: one
    /// for each text that is too long, one for an empty name, and another for
    /// an empty type.
    pub proof fn lemma_detail_out_of_range_rejected(
        name: Seq<char>,
        description: Seq<char>,
        contract_type: Seq<char>,
    )
        ensures
            ({
                let verdict = Self::spec_validate_contract_data(name, description, contract_type);
                let name_fits = byte_len(name) <= MAX_NAME_LEN;
                let description_fits = byte_len(description) <= MAX_DESCRIPTION_LEN;
                let type_fits = byte_len(contract_type) <= MAX_CONTRACT_TYPE_LEN;
                &&& !name_fits && description_fits && type_fits ==> verdict == Err::<
                    (),
                    CustomError,
                >(CustomError::NameTooLong)
                &&& name_fits && !description_fits && type_fits ==> verdict == Err::<
                    (),
                    CustomError,
                >(CustomError::DescriptionTooLong)
                &&& name_fits && description_fits && !type_fits ==> verdict == Err::<
                    (),
                    CustomError,
                >(CustomError::ContractTypeTooLong)
                &&& description_fits && type_fits && name.len() == 0 ==> verdict == Err::<
                    (),
                    CustomError,
                >(CustomError::EmptyName)
                &&& name_fits && description_fits && name.len() > 0 && contract_type.len() == 0
                    ==> verdict == Err::<(), CustomError>(CustomError::EmptyContractType)
            }),
    {
    }

    /// The verdict tells exactly what is wrong: each error comes from one
    /// failure and from no other.
    pub proof fn lemma_detail_errors_name_the_field(
        name: Seq<char>,
        description: Seq<char>,
        contract_type: Seq<char>,
    )
        ensures
            ({
                let verdict = Self::spec_validate_contract_data(name, description, contract_type);
                &&& verdict == Err::<(), CustomError>(CustomError::NameTooLong) ==> byte_len(name)
                    > MAX_NAME_LEN
                &&& verdict == Err::<(), CustomError>(CustomError::DescriptionTooLong)
                    ==> byte_len(description) > MAX_DESCRIPTION_LEN
                &&& verdict == Err::<(), CustomError>(CustomError::ContractTypeTooLong)
                    ==> byte_len(contract_type) > MAX_CONTRACT_TYPE_LEN
                &&& verdict == Err::<(), CustomError>(CustomError::EmptyName) ==> name.len() == 0
                &&& verdict == Err::<(), CustomError>(CustomError::EmptyContractType)
                    ==> contract_type.len() == 0
                &&& verdict is Err ==> verdict->Err_0 == CustomError::NameTooLong
                    || verdict->Err_0 == CustomError::DescriptionTooLong || verdict->Err_0
                    == CustomError::ContractTypeTooLong || verdict->Err_0 == CustomError::EmptyName
                    || verdict->Err_0 == CustomError::EmptyContractType
            }),
    {
    }

    /// What a proposal of new details comes to, before anything is written.
    ///
    /// The three texts are taken in the order name, description, type. One
    /// that is absent, or equal to the text in place, changes nothing and is
    /// not judged. One that differs is judged together with the other two as
    /// they would then stand, and the first that fails gives the error. With
    /// no failure the result tells whether any text differs.
    pub open spec fn spec_update_contract(
        &self,
        name: Option<String>,
        description: Option<String>,
        contract_type: Option<String>,
    ) -> Result<bool, CustomError> {
        let n = merged(self.name, name);
        let d = merged(self.description, description);
        let t = merged(self.contract_type, contract_type);
        let with_name = Self::spec_validate_contract_data(
            n@,
            self.description@,
            self.contract_type@,
        );
        let with_description = Self::spec_validate_contract_data(n@, d@, self.contract_type@);
        let with_type = Self::spec_validate_contract_data(n@, d@, t@);
        if replaces(self.name, name) && with_name is Err {
            Err(with_name->Err_0)
        } else if replaces(self.description, description) && with_description is Err {
            Err(with_description->Err_0)
        } else if replaces(self.contract_type, contract_type) && with_type is Err {
            Err(with_type->Err_0)
        } else {
            Ok(
                replaces(self.name, name) || replaces(self.description, description) || replaces(
                    self.contract_type,
                    contract_type,
                ),
            )
        }
    }

    /// The contract after a proposal of new details at time `now`. Where the
    /// proposal fails or changes nothing, the contract is as it was. Else the
    /// three texts are the merged ones, the version is one higher, and the
    /// time of the last write is `now`.
    pub open spec fn after_update_contract(
        &self,
        name: Option<String>,
        description: Option<String>,
        contract_type: Option<String>,
        now: i64,
    ) -> Contract {
        if self.spec_update_contract(name, description, contract_type) == Ok::<bool, CustomError>(
            true,
        ) {
            Contract {
                name: merged(self.name, name),
                description: merged(self.description, description),
                contract_type: merged(self.contract_type, contract_type),
                updated_at: now,
                version: (self.version + 1) as u32,
                ..*self
            }
        } else {
            *self
        }
    }

    /// Replaces those of the three texts that are proposed and differ, all of
    /// them or none. Returns whether anything was written.
    pub fn update_contract(
        &mut self,
        name: Option<String>,
        description: Option<String>,
        contract_type: Option<String>,
        now: i64,
    ) -> (r: Result<bool, CustomError>)
        requires
            old(self).spec_update_contract(name, description, contract_type) == Ok::<
                bool,
                CustomError,
            >(true) ==> old(self).version < u32::MAX,
        ensures
            r == old(self).spec_update_contract(name, description, contract_type),
            *final(self) == old(self).after_update_contract(name, description, contract_type, now),
    {
        let name_differs = match &name {
            Some(text) => !(*text == self.name),
            None => false,
        };
        let description_differs = match &description {
            Some(text) => !(*text == self.description),
            None => false,
        };
        let type_differs = match &contract_type {
            Some(text) => !(*text == self.contract_type),
            None => false,
        };
        let n: &String = match &name {
            Some(text) => if name_differs { text } else { &self.name },
            None => &self.name,
        };
        let d: &String = match &description {
            Some(text) => if description_differs { text } else { &self.description },
            None => &self.description,
        };
        let t: &String = match &contract_type {
            Some(text) => if type_differs { text } else { &self.contract_type },
            None => &self.contract_type,
        };
        if name_differs {
            match Self::validate_contract_data(
                n.as_str(),
                self.description.as_str(),
                self.contract_type.as_str(),
            ) {
                Err(e) => { return Err(e); },
                Ok(()) => {},
            }
        }
        if description_differs {
            match Self::validate_contract_data(n.as_str(), d.as_str(), self.contract_type.as_str()) {
                Err(e) => { return Err(e); },
                Ok(()) => {},
            }
        }
        if type_differs {
            match Self::validate_contract_data(n.as_str(), d.as_str(), t.as_str()) {
                Err(e) => { return Err(e); },
                Ok(()) => {},
            }
        }
        let changed = name_differs || description_differs || type_differs;
        if name_differs {
            if let Some(text) = name {
                self.name = text;
            }
        }
        if description_differs {
            if let Some(text) = description {
                self.description = text;
            }
        }
        if type_differs {
            if let Some(text) = contract_type {
                self.contract_type = text;
            }
        }
        if changed {
            self.updated_at = now;
            self.version = self.version + 1;
        }
        Ok(changed)
    }
    /// Whether the contract may be executed: only an active one may.
    pub open spec fn spec_execute(&self) -> Result<(), CustomError> {
        if self.is_active {
            Ok(())
        } else {
            Err(CustomError::ContractInactive)
        }
    }

    /// The contract after an attempt to execute it at time `now`: one more
    /// execution counted and the time of the last write moved, where it is
    /// active; as it was, where it is not.
    pub open spec fn after_execute(&self, now: i64) -> Contract {
        if self.is_active {
            Contract {
                execution_count: (self.execution_count + 1) as u32,
                updated_at: now,
                ..*self
            }
        } else {
            *self
        }
    }

    /// Counts one execution of an active contract.
    pub fn execute(&mut self, now: i64) -> (r: Result<(), CustomError>)
        requires
            old(self).spec_execute() is Ok ==> old(self).execution_count < u32::MAX,
        ensures
            r == old(self).spec_execute(),
            *final(self) == old(self).after_execute(now),
    {
        if !self.is_active {
            return Err(CustomError::ContractInactive);
        }
        self.execution_count = self.execution_count + 1;
        self.updated_at = now;
        Ok(())
    }

    /// The contract after its switch is set to `is_active` at time `now`. A
    /// switch that already stands so leaves the contract as it was.
    pub open spec fn after_status(&self, is_active: bool, now: i64) -> Contract {
        if self.is_active != is_active {
            Contract { is_active, updated_at: now, ..*self }
        } else {
            *self
        }
    }

    /// The contract as `authority` creates it at time `now`: active, at
    /// version 1, never executed.
    pub open spec fn created(
        name: String,
        description: String,
        contract_type: String,
        authority: Identity,
        now: i64,
    ) -> Contract {
        Contract {
            name,
            description,
            contract_type,
            authority,
            is_active: true,
            created_at: now,
            updated_at: now,
            version: 1,
            execution_count: 0,
        }
    }
}

/// What setting the switch of a stored contract reports: an event where the
/// switch moved, a skip where it already stood so.
pub open spec fn status_outcome(account: Account<Contract>, is_active: bool, now: i64)
    -> UpdateOutcome<ContractStatusUpdated> {
    if account.data.is_active != is_active {
        UpdateOutcome::Updated(
            ContractStatusUpdated { contract: account.key, is_active, timestamp: now },
        )
    } else {
        UpdateOutcome::Skipped
    }
}

/// A stored contract after its switch is set.
pub open spec fn status_applied(account: Account<Contract>, is_active: bool, now: i64)
    -> Account<Contract> {
    Account { key: account.key, data: account.data.after_status(is_active, now) }
}

fn apply_status(account: &mut Account<Contract>, is_active: bool, now: i64) -> (r: UpdateOutcome<
    ContractStatusUpdated,
>)
    ensures
        r == status_outcome(*old(account), is_active, now),
        *final(account) == status_applied(*old(account), is_active, now),
{
    if account.data.is_active != is_active {
        account.data.is_active = is_active;
        account.data.updated_at = now;
        UpdateOutcome::Updated(
            ContractStatusUpdated { contract: account.key, is_active, timestamp: now },
        )
    } else {
        UpdateOutcome::Skipped
    }
}

/// What an authority hands over to create a contract: the address at which
/// it is to live, with whatever lives there already, and its own identity.
#[derive(Clone, Debug, PartialEq, Eq)]
pub struct InitializeContract {
    pub contract: Account<Option<Contract>>,
    pub authority: Identity,
}

/// What an authority hands over to switch a contract on or off.
#[derive(Clone, Debug, PartialEq, Eq)]
pub struct UpdateContract {
    pub contract: Account<Contract>,
    pub authority: Identity,
}

/// What an authority hands over to replace details of a contract.
#[derive(Clone, Debug, PartialEq, Eq)]
pub struct UpdateContractDetails {
    pub contract: Account<Contract>,
    pub authority: Identity,
}

/// What an authority hands over to execute a contract.
#[derive(Clone, Debug, PartialEq, Eq)]
pub struct ExecuteContract {
    pub contract: Account<Contract>,
    pub authority: Identity,
}

/// What an authority hands over to switch up to two contracts in one go.
#[derive(Clone, Debug, PartialEq, Eq)]
pub struct BatchContractOperation {
    pub contract_1: Account<Contract>,
    pub contract_2: Account<Contract>,
    pub authority: Identity,
}

impl InitializeContract {
    /// What creating the contract comes to. It fails where a record already
    /// lives at the address, then where the three texts fail validation.
    /// Else it reports the new contract.
    pub open spec fn spec_process(
        &self,
        name: String,
        description: String,
        contract_type: String,
    ) -> Result<ContractInitialized, CustomError> {
        let verdict = Contract::spec_validate_contract_data(name@, description@, contract_type@);
        if self.contract.data is Some {
            Err(CustomError::AccountAlreadyExists)
        } else if verdict is Err {
            Err(verdict->Err_0)
        } else {
            Ok(
                ContractInitialized {
                    contract: self.contract.key,
                    name,
                    description,
                    contract_type,
                    authority: self.authority,
                },
            )
        }
    }

    /// What is handed back: the new contract at the address where creation
    /// succeeds, everything as it was where it fails.
    pub open spec fn after_process(
        &self,
        name: String,
        description: String,
        contract_type: String,
        now: i64,
    ) -> InitializeContract {
        if self.spec_process(name, description, contract_type) is Ok {
            InitializeContract {
                contract: Account {
                    key: self.contract.key,
                    data: Some(
                        Contract::created(name, description, contract_type, self.authority, now),
                    ),
                },
                authority: self.authority,
            }
        } else {
            *self
        }
    }

    /// Creates the contract, owned by the caller.
    pub fn process(&mut self, name: String, description: String, contract_type: String, now: i64) -> (r:
        Result<ContractInitialized, CustomError>)
        ensures
            r == old(self).spec_process(name, description, contract_type),
            *final(self) == old(self).after_process(name, description, contract_type, now),
    {
        if self.contract.data.is_some() {
            return Err(CustomError::AccountAlreadyExists);
        }
        match Contract::validate_contract_data(
            name.as_str(),
            description.as_str(),
            contract_type.as_str(),
        ) {
            Err(e) => { return Err(e); },
            Ok(()) => {},
        }
        let event = ContractInitialized {
            contract: self.contract.key,
            name: name.clone(),
            description: description.clone(),
            contract_type: contract_type.clone(),
            authority: self.authority,
        };
        self.contract.data = Some(
            Contract {
                name,
                description,
                contract_type,
                authority: self.authority,
                is_active: true,
                created_at: now,
                updated_at: now,
                version: 1,
                execution_count: 0,
            },
        );
        Ok(event)
    }

    /// A contract that is created is well formed, belongs to the caller, is
    /// active, stands at version 1, has never been executed, and was created
    /// and last written at `now`.
    pub proof fn lemma_created_contract_sound(
        &self,
        name: String,
        description: String,
        contract_type: String,
        now: i64,
    )
        requires
            self.spec_process(name, description, contract_type) is Ok,
        ensures
            self.after_process(name, description, contract_type, now).contract.data matches Some(
                record,
            ) && record.well_formed() && record.authority == self.authority && record.name == name
                && record.description == description && record.contract_type == contract_type
                && record.is_active && record.version == 1 && record.execution_count == 0
                && record.created_at == now && record.updated_at == now,
            self.after_process(name, description, contract_type, now).contract.key
                == self.contract.key,
    {
    }
}

impl UpdateContract {
    /// What setting the switch comes to. It fails where the caller does not
    /// own the contract. Else it reports whether the switch moved.
    pub open spec fn spec_process_status_update(&self, is_active: bool, now: i64) -> Result<
        UpdateOutcome<ContractStatusUpdated>,
        CustomError,
    > {
        if self.contract.data.authority != self.authority {
            Err(CustomError::UnauthorizedAccess)
        } else {
            Ok(status_outcome(self.contract, is_active, now))
        }
    }

    /// What is handed back: the contract with its switch set where the
    /// caller owns it, everything as it was where not.
    pub open spec fn after_process_status_update(&self, is_active: bool, now: i64) -> UpdateContract {
        if self.contract.data.authority != self.authority {
            *self
        } else {
            UpdateContract {
                contract: status_applied(self.contract, is_active, now),
                authority: self.authority,
            }
        }
    }

    /// Switches the contract on or off. Nothing is written where the switch
    /// already stands as asked.
    pub fn process_status_update(&mut self, is_active: bool, now: i64) -> (r: Result<
        UpdateOutcome<ContractStatusUpdated>,
        CustomError,
    >)
        ensures
            r == old(self).spec_process_status_update(is_active, now),
            *final(self) == old(self).after_process_status_update(is_active, now),
    {
        if !self.contract.data.authority.same_as(&self.authority) {
            return Err(CustomError::UnauthorizedAccess);
        }
        Ok(apply_status(&mut self.contract, is_active, now))
    }

    /// A contract that the caller owns ends with its switch as asked. The
    /// write is reported where the switch moved, and only there is the time
    /// of the last write touched. Nothing else of the contract changes.
    pub proof fn lemma_switch_set(&self, is_active: bool, now: i64)
        requires
            self.contract.data.authority == self.authority,
        ensures
            ({
                let before = self.contract.data;
                let after = self.after_process_status_update(is_active, now).contract.data;
                let outcome = self.spec_process_status_update(is_active, now);
                &&& outcome is Ok
                &&& after.is_active == is_active
                &&& outcome->Ok_0 is Updated <==> before.is_active != is_active
                &&& after.updated_at == if before.is_active != is_active {
                    now
                } else {
                    before.updated_at
                }
                &&& after == Contract {
                    is_active: after.is_active,
                    updated_at: after.updated_at,
                    ..before
                }
            }),
    {
    }
}

impl UpdateContractDetails {
    /// The contract after the proposal, where the caller owns it.
    pub open spec fn updated_contract(
        &self,
        name: Option<String>,
        description: Option<String>,
        contract_type: Option<String>,
        now: i64,
    ) -> Contract {
        self.contract.data.after_update_contract(name, description, contract_type, now)
    }

    /// What a proposal of new details comes to. It fails where the caller
    /// does not own the contract, then where the proposal itself fails. Else
    /// it reports the contract as it then stands, or a skip where no text differs.
    pub open spec fn spec_process(
        &self,
        name: Option<String>,
        description: Option<String>,
        contract_type: Option<String>,
        now: i64,
    ) -> Result<UpdateOutcome<ContractUpdated>, CustomError> {
        let verdict = self.contract.data.spec_update_contract(name, description, contract_type);
        let written = self.updated_contract(name, description, contract_type, now);
        if self.contract.data.authority != self.authority {
            Err(CustomError::UnauthorizedAccess)
        } else if verdict is Err {
            Err(verdict->Err_0)
        } else if verdict->Ok_0 {
            Ok(
                UpdateOutcome::Updated(
                    ContractUpdated {
                        contract: self.contract.key,
                        name: written.name,
                        description: written.description,
                        contract_type: written.contract_type,
                        version: written.version,
                        timestamp: written.updated_at,
                    },
                ),
            )
        } else {
            Ok(UpdateOutcome::Skipped)
        }
    }

    /// What is handed back: the contract with its new texts where the proposal is
    /// applied, everything as it was where it fails or is skipped.
    pub open spec fn after_process(
        &self,
        name: Option<String>,
        description: Option<String>,
        contract_type: Option<String>,
        now: i64,
    ) -> UpdateContractDetails {
        if self.contract.data.authority != self.authority {
            *self
        } else {
            UpdateContractDetails {
                contract: Account {
                    key: self.contract.key,
                    data: self.updated_contract(name, description, contract_type, now),
                },
                authority: self.authority,
            }
        }
    }

    /// Replaces those details of the contract that are proposed and differ.
    pub fn process(
        &mut self,
        name: Option<String>,
        description: Option<String>,
        contract_type: Option<String>,
        now: i64,
    ) -> (r: Result<UpdateOutcome<ContractUpdated>, CustomError>)
        requires
            old(self).spec_process(name, description, contract_type, now) matches Ok(
                UpdateOutcome::Updated(_),
            ) ==> old(self).contract.data.version < u32::MAX,
        ensures
            r == old(self).spec_process(name, description, contract_type, now),
            *final(self) == old(self).after_process(name, description, contract_type, now),
    {
        if !self.contract.data.authority.same_as(&self.authority) {
            return Err(CustomError::UnauthorizedAccess);
        }
        let changed = match self.contract.data.update_contract(name, description, contract_type, now) {
            Err(e) => { return Err(e); },
            Ok(changed) => changed,
        };
        if changed {
            Ok(
                UpdateOutcome::Updated(
                    ContractUpdated {
                        contract: self.contract.key,
                        name: self.contract.data.name.clone(),
                        description: self.contract.data.description.clone(),
                        contract_type: self.contract.data.contract_type.clone(),
                        version: self.contract.data.version,
                        timestamp: self.contract.data.updated_at,
                    },
                ),
            )
        } else {
            Ok(UpdateOutcome::Skipped)
        }
    }

    /// A proposal in which every text is absent or equal to the one in place
    /// is skipped: the contract keeps its version and everything else.
    pub proof fn lemma_unchanged_details_skipped(
        &self,
        name: Option<String>,
        description: Option<String>,
        contract_type: Option<String>,
        now: i64,
    )
        requires
            self.contract.data.authority == self.authority,
            !replaces(self.contract.data.name, name),
            !replaces(self.contract.data.description, description),
            !replaces(self.contract.data.contract_type, contract_type),
        ensures
            self.spec_process(name, description, contract_type, now) == Ok::<
                UpdateOutcome<ContractUpdated>,
                CustomError,
            >(UpdateOutcome::Skipped),
            self.after_process(name, description, contract_type, now) == *self,
    {
    }

    /// A proposal that succeeds and in which some text differs is written:
    /// the version grows by exactly one, the time of the last write is
    /// `now`, and each text is the proposed one where that differs and the
    /// old one where not.
    pub proof fn lemma_changed_details_written(
        &self,
        name: Option<String>,
        description: Option<String>,
        contract_type: Option<String>,
        now: i64,
    )
        requires
            self.contract.data.authority == self.authority,
            self.contract.data.spec_update_contract(name, description, contract_type) is Ok,
            replaces(self.contract.data.name, name) || replaces(
                self.contract.data.description,
                description,
            ) || replaces(self.contract.data.contract_type, contract_type),
            self.contract.data.version < u32::MAX,
        ensures
            ({
                let before = self.contract.data;
                let after = self.after_process(name, description, contract_type, now).contract.data;
                &&& self.spec_process(name, description, contract_type, now) matches Ok(
                    UpdateOutcome::Updated(event),
                ) && event.version == before.version + 1 && event.timestamp == now && event.name
                    == after.name && event.description == after.description && event.contract_type
                    == after.contract_type
                &&& after.version == before.version + 1
                &&& after.updated_at == now
                &&& after.name == merged(before.name, name)
                &&& after.description == merged(before.description, description)
                &&& after.contract_type == merged(before.contract_type, contract_type)
            }),
    {
    }

    /// A proposal that fails writes none of its texts.
    pub proof fn lemma_rejected_details_write_nothing(
        &self,
        name: Option<String>,
        description: Option<String>,
        contract_type: Option<String>,
        now: i64,
    )
        requires
            self.spec_process(name, description, contract_type, now) is Err,
        ensures
            self.after_process(name, description, contract_type, now) == *self,
    {
    }

    /// Whatever a proposal comes to, the contract keeps its owner, its
    /// address, its switch, its count of executions and its time of creation;
    /// a well-formed contract stays well formed; the version stays or grows
    /// by one; and with a clock that does not run backwards the time of the
    /// last write does not either.
    pub proof fn lemma_details_keep_contract_sound(
        &self,
        name: Option<String>,
        description: Option<String>,
        contract_type: Option<String>,
        now: i64,
    )
        requires
            self.spec_process(name, description, contract_type, now) matches Ok(
                UpdateOutcome::Updated(_),
            ) ==> self.contract.data.version < u32::MAX,
        ensures
            ({
                let before = self.contract;
                let after = self.after_process(name, description, contract_type, now).contract;
                &&& self.after_process(name, description, contract_type, now).authority
                    == self.authority
                &&& after.key == before.key
                &&& after.data.authority == before.data.authority
                &&& after.data.is_active == before.data.is_active
                &&& after.data.execution_count == before.data.execution_count
                &&& after.data.created_at == before.data.created_at
                &&& before.data.well_formed() ==> after.data.well_formed()
                &&& after.data.version == before.data.version || after.data.version
                    == before.data.version + 1
                &&& now >= before.data.updated_at ==> after.data.updated_at
                    >= before.data.updated_at
            }),
    {
    }
}

impl ExecuteContract {
    /// What an execution comes to. It fails where the caller does not own
    /// the contract, then where the contract is inactive. Else it reports
    /// the new count.
    pub open spec fn spec_process(&self, now: i64) -> Result<ContractExecuted, CustomError> {
        if self.contract.data.authority != self.authority {
            Err(CustomError::UnauthorizedAccess)
        } else if !self.contract.data.is_active {
            Err(CustomError::ContractInactive)
        } else {
            Ok(
                ContractExecuted {
                    contract: self.contract.key,
                    execution_count: (self.contract.data.execution_count + 1) as u32,
                    timestamp: now,
                },
            )
        }
    }

    /// What is handed back: one more execution counted where it succeeds,
    /// everything as it was where it fails.
    pub open spec fn after_process(&self, now: i64) -> ExecuteContract {
        if self.spec_process(now) is Ok {
            ExecuteContract {
                contract: Account {
                    key: self.contract.key,
                    data: self.contract.data.after_execute(now),
                },
                authority: self.authority,
            }
        } else {
            *self
        }
    }

    /// Executes the contract once.
    pub fn process(&mut self, now: i64) -> (r: Result<ContractExecuted, CustomError>)
        requires
            old(self).spec_process(now) is Ok ==> old(self).contract.data.execution_count
                < u32::MAX,
        ensures
            r == old(self).spec_process(now),
            *final(self) == old(self).after_process(now),
    {
        if !self.contract.data.authority.same_as(&self.authority) {
            return Err(CustomError::UnauthorizedAccess);
        }
        match self.contract.data.execute(now) {
            Err(e) => { return Err(e); },
            Ok(()) => {},
        }
        Ok(
            ContractExecuted {
                contract: self.contract.key,
                execution_count: self.contract.data.execution_count,
                timestamp: self.contract.data.updated_at,
            },
        )
    }

    /// An active contract that the caller owns counts exactly one execution
    /// more, and its time of the last write is `now`. Nothing else of it
    /// changes.
    pub proof fn lemma_execution_counted(&self, now: i64)
        requires
            self.contract.data.authority == self.authority,
            self.contract.data.is_active,
            self.contract.data.execution_count < u32::MAX,
        ensures
            ({
                let before = self.contract.data;
                let after = self.after_process(now).contract.data;
                &&& self.spec_process(now) matches Ok(event) && event.execution_count
                    == before.execution_count + 1
                &&& after.execution_count == before.execution_count + 1
                &&& after.updated_at == now
                &&& after == Contract {
                    execution_count: after.execution_count,
                    updated_at: now,
                    ..before
                }
            }),
    {
    }

    /// An inactive contract is not executed: the attempt fails, and nothing
    /// is counted or written.
    pub proof fn lemma_inactive_contract_refused(&self, now: i64)
        requires
            self.contract.data.authority == self.authority,
            !self.contract.data.is_active,
        ensures
            self.spec_process(now) == Err::<ContractExecuted, CustomError>(
                CustomError::ContractInactive,
            ),
            self.after_process(now) == *self,
    {
    }
}

/// The most contracts that one batch may switch.
pub const MAX_CONTRACT_BATCH: usize = 2;

impl BatchContractOperation {
    /// The stored contract that the entry at `index` is for: the first for
    /// entry 0, the second for every other.
    pub open spec fn slot(&self, index: int) -> Account<Contract> {
        if index == 0 {
            self.contract_1
        } else {
            self.contract_2
        }
    }

    /// Whether the batch may run. It fails where it has more entries than
    /// contracts, then at the first entry whose contract the caller does not
    /// own.
    pub open spec fn spec_verdict(&self, statuses: Seq<bool>) -> Result<(), CustomError> {
        if statuses.len() > MAX_CONTRACT_BATCH {
            Err(CustomError::BatchOperationLimitExceeded)
        } else if statuses.len() > 0 && self.contract_1.data.authority != self.authority {
            Err(CustomError::UnauthorizedAccess)
        } else if statuses.len() > 1 && self.contract_2.data.authority != self.authority {
            Err(CustomError::UnauthorizedAccess)
        } else {
            Ok(())
        }
    }

    /// What a batch that runs reports: for each entry, in order, what setting
    /// the switch of its contract reports.
    pub open spec fn spec_outcomes(&self, statuses: Seq<bool>, now: i64) -> Seq<
        UpdateOutcome<ContractStatusUpdated>,
    > {
        Seq::new(statuses.len(), |i: int| status_outcome(self.slot(i), statuses[i], now))
    }

    /// What is handed back: every contract that has an entry with its switch
    /// set where the batch runs, everything as it was where it fails.
    pub open spec fn after_batch(&self, statuses: Seq<bool>, now: i64) -> BatchContractOperation {
        if self.spec_verdict(statuses) is Err {
            *self
        } else {
            BatchContractOperation {
                contract_1: if statuses.len() > 0 {
                    status_applied(self.contract_1, statuses[0], now)
                } else {
                    self.contract_1
                },
                contract_2: if statuses.len() > 1 {
                    status_applied(self.contract_2, statuses[1], now)
                } else {
                    self.contract_2
                },
                authority: self.authority,
            }
        }
    }

    /// Switches up to two contracts, all of them or none. The entries go to
    /// the contracts in order; a contract without an entry is left alone.
    pub fn process_batch_status_update(&mut self, statuses: Vec<bool>, now: i64) -> (r: Result<
        Vec<UpdateOutcome<ContractStatusUpdated>>,
        CustomError,
    >)
        ensures
            match r {
                Ok(outcomes) => old(self).spec_verdict(statuses@) is Ok && outcomes@ == old(
                    self,
                ).spec_outcomes(statuses@, now),
                Err(e) => old(self).spec_verdict(statuses@) == Err::<(), CustomError>(e),
            },
            *final(self) == old(self).after_batch(statuses@, now),
    {
        let count = statuses.len();
        if count > MAX_CONTRACT_BATCH {
            return Err(CustomError::BatchOperationLimitExceeded);
        }
        if count > 0 && !self.contract_1.data.authority.same_as(&self.authority) {
            return Err(CustomError::UnauthorizedAccess);
        }
        if count > 1 && !self.contract_2.data.authority.same_as(&self.authority) {
            return Err(CustomError::UnauthorizedAccess);
        }
        let mut outcomes: Vec<UpdateOutcome<ContractStatusUpdated>> = Vec::new();
        if count > 0 {
            outcomes.push(apply_status(&mut self.contract_1, statuses[0], now));
        }
        if count > 1 {
            outcomes.push(apply_status(&mut self.contract_2, statuses[1], now));
        }
        assert(outcomes@ =~= old(self).spec_outcomes(statuses@, now));
        Ok(outcomes)
    }
    /// A batch in which the caller does not own the contract of some entry
    /// fails as a whole, and no switch is set.
    pub proof fn lemma_bad_entry_stops_batch(&self, statuses: Seq<bool>, now: i64, index: int)
        requires
            0 <= index < statuses.len(),
            self.slot(index).data.authority != self.authority,
        ensures
            self.spec_verdict(statuses) is Err,
            self.after_batch(statuses, now) == *self,
    {
    }

    /// A batch with more entries than contracts fails with the error of the
    /// limit, and no switch is set.
    pub proof fn lemma_long_batch_refused(&self, statuses: Seq<bool>, now: i64)
        requires
            statuses.len() > MAX_CONTRACT_BATCH,
        ensures
            self.spec_verdict(statuses) == Err::<(), CustomError>(
                CustomError::BatchOperationLimitExceeded,
            ),
            self.after_batch(statuses, now) == *self,
    {
    }
}

} // verus!
