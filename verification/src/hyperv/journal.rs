//! The cleanup journal: what a run owns on the host, recorded before it is used, in numbered
//! generations of which the latest valid one is recovered.

use vstd::prelude::*;
use vstd::string::*;

use crate::backend;
use crate::backend::{SandboxError, SandboxResult};
use crate::clock;
use crate::host_path;
use crate::host_path::HostPath;
use crate::hyperv::data_disk;
use crate::hyperv::data_disk::{DataDiskState, RunDataDisk};
use crate::hyperv::disk;
use crate::hyperv::network;
use crate::hyperv::network::NetworkOwnedResources;
use crate::hyperv::vm;
use crate::hyperv::vm::VmHandle;
use crate::text;

verus! {

pub const CLEANUP_JOURNAL_SCHEMA_VERSION: u32 = 3;

pub const MAX_JOURNAL_SEQUENCE: u64 = 10_000;

pub const MAX_JOURNAL_BYTES: u64 = 1_048_576;

/// How many entries a run directory may have besides the generations of its journal.
pub const MAX_OTHER_ENTRIES: u64 = 64;

#[derive(Clone, Copy, Debug, PartialEq, Eq, Structural)]
pub enum CleanupPhase {
    Preparing,
    VmCreated,
    Running,
    Cleaning,
    Failed,
    Finished,
}

#[derive(Clone, Debug, PartialEq, Eq)]
pub struct OwnedSwitch {
    pub id: String,
    pub name: String,
}

#[derive(Clone, Debug)]
pub struct CleanupJournal {
    pub schema_version: u32,
    pub sequence: u64,
    pub run_id: String,
    pub run_root: HostPath,
    pub created_at_unix_ms: u64,
    pub phase: CleanupPhase,
    pub vm: Option<VmHandle>,
    pub os_disk: Option<HostPath>,
    pub os_disk_identifier: Option<String>,
    pub data_disk: Option<RunDataDisk>,
    pub owned_switch: Option<OwnedSwitch>,
    pub network: Option<NetworkOwnedResources>,
    pub warnings: Vec<String>,
    pub leftover_resources: Vec<String>,
}

/// What a journal records.
pub struct JournalView {
    pub schema_version: u32,
    pub sequence: u64,
    pub run_id: Seq<char>,
    pub run_root: HostPath,
    pub created_at_unix_ms: u64,
    pub phase: CleanupPhase,
    pub vm: Option<VmHandle>,
    pub os_disk: Option<HostPath>,
    pub os_disk_identifier: Option<String>,
    pub data_disk: Option<RunDataDisk>,
    pub owned_switch: Option<OwnedSwitch>,
    pub network: Option<NetworkOwnedResources>,
    pub warnings: Seq<Seq<char>>,
    pub leftover_resources: Seq<Seq<char>>,
}

impl View for CleanupJournal {
    type V = JournalView;

    open spec fn view(&self) -> JournalView {
        JournalView {
            schema_version: self.schema_version,
            sequence: self.sequence,
            run_id: self.run_id@,
            run_root: self.run_root,
            created_at_unix_ms: self.created_at_unix_ms,
            phase: self.phase,
            vm: self.vm,
            os_disk: self.os_disk,
            os_disk_identifier: self.os_disk_identifier,
            data_disk: self.data_disk,
            owned_switch: self.owned_switch,
            network: self.network,
            warnings: text::views(self.warnings@),
            leftover_resources: text::views(self.leftover_resources@),
        }
    }
}

// ---------------------------------------------------------------------------------------------
// Identities
// ---------------------------------------------------------------------------------------------

pub open spec fn run_identity_verdict(run_id: Seq<char>, run_root: &HostPath) -> Result<
    (),
    backend::Fault,
> {
    if !network::network_run_id(run_id) || !run_root.absolute || host_path::name_of(
        run_root.spec_parts(),
    ) != Some(run_id) {
        Err(
            backend::fault(
                "hyperv_cleanup_journal"@,
                "cleanup journal run identity or root is invalid"@,
            ),
        )
    } else {
        match run_root.local_fault {
            Some(source) => Err(
                backend::fault_from(
                    "hyperv_cleanup_journal"@,
                    "cleanup run root must be an absolute local path"@,
                    source@,
                ),
            ),
            None => Ok(()),
        }
    }
}

pub fn validate_run_identity(run_id: &str, run_root: &HostPath) -> (verdict: SandboxResult<()>)
    ensures
        backend::outcome(verdict) == run_identity_verdict(run_id@, run_root),
{
    if network::validate_run_id(run_id).is_err() || !run_root.is_absolute() || !run_root.is_named(
        run_id,
    ) {
        return Err(
            SandboxError::new(
                "hyperv_cleanup_journal",
                "cleanup journal run identity or root is invalid",
            ),
        );
    }
    match &run_root.local_fault {
        Some(source) => Err(
            SandboxError::with_source(
                "hyperv_cleanup_journal",
                "cleanup run root must be an absolute local path",
                source.as_str(),
            ),
        ),
        None => Ok(()),
    }
}

pub open spec fn resource_char(c: char) -> bool {
    text::is_ascii_alphanumeric(c) || c == '-' || c == '_' || c == '{' || c == '}'
}

/// One to 128 letters, digits, hyphens, underscores and braces.
pub open spec fn resource_identifier(identifier: Seq<char>) -> bool {
    &&& 1 <= identifier.len() <= 128
    &&& forall|i: int| 0 <= i < identifier.len() ==> resource_char(#[trigger] identifier[i])
}

pub open spec fn resource_identifier_verdict(identifier: Seq<char>) -> Result<(), backend::Fault> {
    if resource_identifier(identifier) {
        Ok(())
    } else {
        Err(backend::fault("hyperv_cleanup"@, "resource identifier contains unsafe characters"@))
    }
}

fn is_resource_identifier(identifier: &str) -> (yes: bool)
    ensures
        yes == resource_identifier(identifier@),
{
    let chars = text::chars_of(identifier);
    if chars.len() == 0 || chars.len() > 128 {
        return false;
    }
    let mut i: usize = 0;
    while i < chars.len()
        invariant
            i <= chars@.len(),
            chars@ == identifier@,
            forall|j: int| 0 <= j < i ==> resource_char(#[trigger] chars@[j]),
        decreases chars@.len() - i,
    {
        let c = chars[i];
        if !(text::char_is_ascii_alphanumeric(c) || c == '-' || c == '_' || c == '{' || c == '}') {
            proof {
                assert(!resource_char(identifier@[i as int]));
            }
            return false;
        }
        i = i + 1;
    }
    true
}

pub fn validate_resource_identifier(identifier: &str) -> (verdict: SandboxResult<()>)
    ensures
        backend::outcome(verdict) == resource_identifier_verdict(identifier@),
{
    if is_resource_identifier(identifier) {
        Ok(())
    } else {
        Err(SandboxError::new("hyperv_cleanup", "resource identifier contains unsafe characters"))
    }
}

/// An identifier, where there is one, is a safe one.
pub open spec fn safe_option(identifier: Option<String>) -> bool {
    match identifier {
        Some(value) => resource_identifier(value@),
        None => true,
    }
}

fn is_safe_option(identifier: &Option<String>) -> (yes: bool)
    ensures
        yes == safe_option(*identifier),
{
    match identifier {
        Some(value) => is_resource_identifier(value.as_str()),
        None => true,
    }
}

pub fn same_run_root(left: &HostPath, right: &HostPath) -> (same: bool)
    ensures
        same == left.same(right),
{
    left.is_same(right)
}

pub fn now_unix_ms() -> u64 {
    clock::unix_time_ms()
}

// ---------------------------------------------------------------------------------------------
// Validation
// ---------------------------------------------------------------------------------------------

pub open spec fn bounded_diagnostic(value: Seq<char>) -> bool {
    text::byte_len(value) <= 4096 && !value.contains('\0')
}

pub open spec fn bounded_diagnostics(list: Seq<Seq<char>>) -> bool {
    forall|i: int| 0 <= i < list.len() ==> bounded_diagnostic(#[trigger] list[i])
}

fn are_bounded_diagnostics(list: &Vec<String>) -> (yes: bool)
    ensures
        yes == bounded_diagnostics(text::views(list@)),
{
    let mut i: usize = 0;
    while i < list.len()
        invariant
            i <= list@.len(),
            forall|j: int| 0 <= j < i ==> bounded_diagnostic(#[trigger] text::views(list@)[j]),
        decreases list@.len() - i,
    {
        let value = list[i].as_str();
        if text::utf8_len(value) > 4096 || text::contains_char(value, '\0') {
            proof {
                assert(!bounded_diagnostic(text::views(list@)[i as int]));
            }
            return false;
        }
        i = i + 1;
    }
    true
}

impl JournalView {
    pub open spec fn bounded(self) -> bool {
        &&& 1 <= self.schema_version <= CLEANUP_JOURNAL_SCHEMA_VERSION
        &&& self.created_at_unix_ms != 0
        &&& self.sequence <= MAX_JOURNAL_SEQUENCE
        &&& self.warnings.len() <= 512
        &&& self.leftover_resources.len() <= 128
        &&& bounded_diagnostics(self.warnings)
        &&& bounded_diagnostics(self.leftover_resources)
    }

    /// The machine is the one of the run.
    pub open spec fn owns_vm(self, machine: &VmHandle) -> bool {
        &&& machine.name@ == vm::vm_name(self.run_id)
        &&& machine.generation == 2
        &&& machine.configuration_path.within(&self.run_root)
        &&& !machine.configuration_path.equals(&self.run_root)
        &&& resource_identifier(machine.id@)
    }

    /// The identity of the system disk is recorded with it, but for legacy journals and runs that
    /// are still being prepared.
    pub open spec fn identifies_os_disk(self) -> bool {
        &&& self.os_disk_identifier is Some ==> self.os_disk is Some
        &&& self.os_disk is Some && self.os_disk_identifier is None ==> self.schema_version == 1
            || self.phase == CleanupPhase::Preparing
        &&& safe_option(self.os_disk_identifier)
    }

    /// The data disk is the one of the run, with its identities unless it is only planned.
    pub open spec fn identifies_data_disk(self, data: &RunDataDisk) -> bool {
        &&& host_path::name_of(data.path.spec_parts()) == Some("run-data.vhdx"@)
        &&& host_path::same_parts(
            data.mount_path.style,
            data.mount_path.spec_parts(),
            self.run_root.spec_parts().push(host_path::PartView::Normal("data-mount"@)),
        )
        &&& data.label@ == data_disk::label_text(self.run_id)
        &&& data_disk::MIN_DATA_DISK_BYTES <= data.size_bytes <= data_disk::MAX_DATA_DISK_BYTES
        &&& safe_option(data.disk_unique_id)
        &&& safe_option(data.vhd_identifier)
        &&& data.state == DataDiskState::Planned || self.schema_version == 1 || (
        data.disk_unique_id is Some && data.vhd_identifier is Some)
    }

    /// No resource is recorded.
    pub open spec fn names_nothing(self) -> bool {
        &&& self.vm is None
        &&& self.os_disk is None
        &&& self.data_disk is None
        &&& self.owned_switch is None
        &&& self.network is None
    }

    pub open spec fn vm_verdict(self) -> Result<(), backend::Fault> {
        match self.vm {
            Some(machine) => if self.owns_vm(&machine) {
                Ok(())
            } else {
                Err(
                    backend::fault(
                        "hyperv_cleanup_journal"@,
                        "cleanup journal VM identity is not owned by this run"@,
                    ),
                )
            },
            None => Ok(()),
        }
    }

    pub open spec fn os_disk_verdict(self) -> Result<(), backend::Fault> {
        let path_verdict = match self.os_disk {
            Some(path) => disk::owned_path_verdict(&path, &self.run_root),
            None => Ok(()),
        };
        backend::both(
            path_verdict,
            if self.identifies_os_disk() {
                Ok(())
            } else {
                Err(
                    backend::fault(
                        "hyperv_cleanup_journal"@,
                        "cleanup journal OS-disk identity is invalid or incomplete"@,
                    ),
                )
            },
        )
    }

    pub open spec fn data_disk_verdict(self) -> Result<(), backend::Fault> {
        match self.data_disk {
            Some(data) => backend::both(
                disk::owned_path_verdict(&data.path, &self.run_root),
                if self.identifies_data_disk(&data) {
                    Ok(())
                } else {
                    Err(
                        backend::fault(
                            "hyperv_cleanup_journal"@,
                            "cleanup journal run-data disk identity is invalid"@,
                        ),
                    )
                },
            ),
            None => Ok(()),
        }
    }

    pub open spec fn switch_verdict(self) -> Result<(), backend::Fault> {
        match self.owned_switch {
            Some(switch) => backend::both(
                resource_identifier_verdict(switch.id@),
                if text::blank(switch.name@) || text::byte_len(switch.name@) > 80
                    || text::same_ignoring_case(switch.name@, "Default Switch"@)
                    || text::has_control(switch.name@) {
                    Err(
                        backend::fault(
                            "hyperv_cleanup_journal"@,
                            "cleanup journal switch identity is invalid"@,
                        ),
                    )
                } else {
                    Ok(())
                },
            ),
            None => Ok(()),
        }
    }

    pub open spec fn network_verdict(self, program_data: Option<&HostPath>) -> Result<
        (),
        backend::Fault,
    > {
        match self.network {
            Some(resources) => resources.journal_verdict(self.run_id, &self.run_root, program_data),
            None => Ok(()),
        }
    }

    /// A finished journal names nothing that is still there.
    pub open spec fn finish_verdict(self) -> Result<(), backend::Fault> {
        if self.phase == CleanupPhase::Finished && !(self.names_nothing() && self.os_disk_identifier
            is None && self.leftover_resources.len() == 0) {
            Err(
                backend::fault(
                    "hyperv_cleanup_journal"@,
                    "finished cleanup journal still names live resources"@,
                ),
            )
        } else {
            Ok(())
        }
    }

    pub open spec fn verdict(self, program_data: Option<&HostPath>) -> Result<(), backend::Fault> {
        backend::both(
            if self.bounded() {
                Ok(())
            } else {
                Err(
                    backend::fault(
                        "hyperv_cleanup_journal"@,
                        "cleanup journal schema, sequence, time, or diagnostic bounds are invalid"@,
                    ),
                )
            },
            backend::both(
                run_identity_verdict(self.run_id, &self.run_root),
                backend::both(
                    self.vm_verdict(),
                    backend::both(
                        self.os_disk_verdict(),
                        backend::both(
                            self.data_disk_verdict(),
                            backend::both(
                                self.switch_verdict(),
                                backend::both(
                                    self.network_verdict(program_data),
                                    self.finish_verdict(),
                                ),
                            ),
                        ),
                    ),
                ),
            ),
        )
    }
}

fn check_vm(journal: &CleanupJournal) -> (verdict: SandboxResult<()>)
    ensures
        backend::outcome(verdict) == journal@.vm_verdict(),
{
    match &journal.vm {
        Some(machine) => {
            let expected_name = text::cat2("foxhole-", journal.run_id.as_str());
            if !text::same_text(machine.name.as_str(), expected_name.as_str()) || machine.generation
                != 2 || !machine.configuration_path.is_within(&journal.run_root)
                || machine.configuration_path.is_equal(&journal.run_root) || !is_resource_identifier(
                machine.id.as_str(),
            ) {
                return Err(
                    SandboxError::new(
                        "hyperv_cleanup_journal",
                        "cleanup journal VM identity is not owned by this run",
                    ),
                );
            }
            Ok(())
        },
        None => Ok(()),
    }
}

fn check_os_disk(journal: &CleanupJournal) -> (verdict: SandboxResult<()>)
    ensures
        backend::outcome(verdict) == journal@.os_disk_verdict(),
{
    match &journal.os_disk {
        Some(path) => match disk::validate_owned_path(path, &journal.run_root) {
            Err(error) => {
                return Err(error);
            },
            Ok(_) => {},
        },
        None => {},
    }
    let legacy_schema = journal.schema_version == 1;
    if (journal.os_disk.is_none() && journal.os_disk_identifier.is_some()) || (
    journal.os_disk.is_some() && journal.os_disk_identifier.is_none() && !legacy_schema
        && journal.phase != CleanupPhase::Preparing) || !is_safe_option(&journal.os_disk_identifier) {
        return Err(
            SandboxError::new(
                "hyperv_cleanup_journal",
                "cleanup journal OS-disk identity is invalid or incomplete",
            ),
        );
    }
    Ok(())
}

fn check_data_disk(journal: &CleanupJournal) -> (verdict: SandboxResult<()>)
    ensures
        backend::outcome(verdict) == journal@.data_disk_verdict(),
{
    match &journal.data_disk {
        Some(data) => {
            match disk::validate_owned_path(&data.path, &journal.run_root) {
                Err(error) => {
                    return Err(error);
                },
                Ok(_) => {},
            }
            let expected_label = data_disk::volume_label(journal.run_id.as_str());
            let expected_mount = journal.run_root.join("data-mount");
            let unidentified = data.state != DataDiskState::Planned && journal.schema_version != 1
                && (data.disk_unique_id.is_none() || data.vhd_identifier.is_none());
            if !data.path.is_named("run-data.vhdx") || !same_run_root(
                &data.mount_path,
                &expected_mount,
            ) || !text::same_text(data.label.as_str(), expected_label.as_str()) || data.size_bytes
                < data_disk::MIN_DATA_DISK_BYTES || data.size_bytes > data_disk::MAX_DATA_DISK_BYTES
                || !is_safe_option(&data.disk_unique_id) || !is_safe_option(&data.vhd_identifier)
                || unidentified {
                return Err(
                    SandboxError::new(
                        "hyperv_cleanup_journal",
                        "cleanup journal run-data disk identity is invalid",
                    ),
                );
            }
            Ok(())
        },
        None => Ok(()),
    }
}

fn check_switch(journal: &CleanupJournal) -> (verdict: SandboxResult<()>)
    ensures
        backend::outcome(verdict) == journal@.switch_verdict(),
{
    match &journal.owned_switch {
        Some(switch) => {
            match validate_resource_identifier(switch.id.as_str()) {
                Err(error) => {
                    return Err(error);
                },
                Ok(_) => {},
            }
            let name = switch.name.as_str();
            if text::is_blank(name) || text::utf8_len(name) > 80 || text::eq_ignoring_case(
                name,
                "Default Switch",
            ) || text::contains_control(name) {
                return Err(
                    SandboxError::new(
                        "hyperv_cleanup_journal",
                        "cleanup journal switch identity is invalid",
                    ),
                );
            }
            Ok(())
        },
        None => Ok(()),
    }
}

/// Checks that a journal is bounded and names only what its run owns.
pub fn validate_journal(journal: &CleanupJournal, program_data: Option<&HostPath>) -> (verdict:
    SandboxResult<()>)
    ensures
        backend::outcome(verdict) == journal@.verdict(program_data),
{
    if journal.schema_version < 1 || journal.schema_version > CLEANUP_JOURNAL_SCHEMA_VERSION
        || journal.created_at_unix_ms == 0 || journal.sequence > MAX_JOURNAL_SEQUENCE
        || journal.warnings.len() > 512 || journal.leftover_resources.len() > 128
        || !are_bounded_diagnostics(&journal.warnings) || !are_bounded_diagnostics(
        &journal.leftover_resources,
    ) {
        return Err(
            SandboxError::new(
                "hyperv_cleanup_journal",
                "cleanup journal schema, sequence, time, or diagnostic bounds are invalid",
            ),
        );
    }
    match validate_run_identity(journal.run_id.as_str(), &journal.run_root) {
        Err(error) => {
            return Err(error);
        },
        Ok(_) => {},
    }
    match check_vm(journal) {
        Err(error) => {
            return Err(error);
        },
        Ok(_) => {},
    }
    match check_os_disk(journal) {
        Err(error) => {
            return Err(error);
        },
        Ok(_) => {},
    }
    match check_data_disk(journal) {
        Err(error) => {
            return Err(error);
        },
        Ok(_) => {},
    }
    match check_switch(journal) {
        Err(error) => {
            return Err(error);
        },
        Ok(_) => {},
    }
    match &journal.network {
        Some(resources) => match network::validate_owned_resources(
            resources,
            journal.run_id.as_str(),
            &journal.run_root,
            program_data,
        ) {
            Err(error) => {
                return Err(error);
            },
            Ok(_) => {},
        },
        None => {},
    }
    if journal.phase == CleanupPhase::Finished && (journal.vm.is_some() || journal.os_disk.is_some()
        || journal.os_disk_identifier.is_some() || journal.data_disk.is_some()
        || journal.owned_switch.is_some() || journal.network.is_some()
        || journal.leftover_resources.len() > 0) {
        return Err(
            SandboxError::new(
                "hyperv_cleanup_journal",
                "finished cleanup journal still names live resources",
            ),
        );
    }
    Ok(())
}

// ---------------------------------------------------------------------------------------------
// Generations
// ---------------------------------------------------------------------------------------------

/// The digits of a number below a million, filled up with zeros to six.
pub open spec fn six_digits(n: nat) -> Seq<char> {
    seq![
        text::digit_char(n / 100_000 % 10),
        text::digit_char(n / 10_000 % 10),
        text::digit_char(n / 1000 % 10),
        text::digit_char(n / 100 % 10),
        text::digit_char(n / 10 % 10),
        text::digit_char(n % 10),
    ]
}

/// The file name of a generation.
pub open spec fn journal_name(sequence: nat) -> Seq<char> {
    "cleanup-journal-"@ + six_digits(sequence) + ".json"@
}

/// The generation that a file name denotes.
pub open spec fn sequence_of_name(name: Seq<char>) -> Option<nat> {
    match text::without_prefix(name, "cleanup-journal-"@) {
        Some(rest) => if text::ends(rest, ".json"@) {
            let digits = rest.take(rest.len() - ".json"@.len());
            if digits.len() == 6 && text::all_digits(digits) && 1 <= text::digits_value(digits)
                <= MAX_JOURNAL_SEQUENCE {
                Some(text::digits_value(digits))
            } else {
                None
            }
        } else {
            None
        },
        None => None,
    }
}

pub fn journal_sequence_from_name(name: &str) -> (sequence: Option<u64>)
    ensures
        match sequence {
            Some(n) => sequence_of_name(name@) == Some(n as nat),
            None => sequence_of_name(name@) is None,
        },
{
    let rest = match text::strip_prefix(name, "cleanup-journal-") {
        Some(rest) => rest,
        None => {
            return None;
        },
    };
    if !text::ends_with(rest.as_str(), ".json") {
        return None;
    }
    proof {
        reveal_strlit(".json");
    }
    let chars = text::chars_of(rest.as_str());
    let kept: usize = chars.len() - 5;
    if kept != 6 {
        return None;
    }
    let shown = text::string_of(&chars, 0, kept);
    let digits = text::chars_of(shown.as_str());
    proof {
        assert(digits@ =~= rest@.take(rest@.len() - 5));
        assert(digits@.skip(0) =~= digits@);
    }
    match text::parse_number(&digits, 0, 10_000) {
        Some(n) => if n > 0 {
            Some(n as u64)
        } else {
            None
        },
        None => None,
    }
}

fn digit_of(n: u64) -> (c: char)
    requires
        n < 10,
    ensures
        c == text::digit_char(n as nat),
{
    (48u8 + n as u8) as char
}

/// The file name of a generation.
pub fn generation_name(sequence: u64) -> (name: String)
    ensures
        name@ == journal_name(sequence as nat),
{
    let mut digits: String = String::new();
    digits.push(digit_of(sequence / 100_000 % 10));
    digits.push(digit_of(sequence / 10_000 % 10));
    digits.push(digit_of(sequence / 1000 % 10));
    digits.push(digit_of(sequence / 100 % 10));
    digits.push(digit_of(sequence / 10 % 10));
    digits.push(digit_of(sequence % 10));
    proof {
        assert(digits@ =~= six_digits(sequence as nat));
    }
    text::cat3("cleanup-journal-", digits.as_str(), ".json")
}

impl CleanupJournal {
    /// The first journal of a run, at the present moment.
    pub fn new(run_id: String, run_root: HostPath) -> (journal: SandboxResult<CleanupJournal>)
        ensures
            match journal {
                Ok(made) => {
                    &&& run_identity_verdict(run_id@, &run_root) is Ok
                    &&& made@ == (JournalView {
                        schema_version: CLEANUP_JOURNAL_SCHEMA_VERSION,
                        sequence: 0,
                        run_id: run_id@,
                        run_root,
                        created_at_unix_ms: made.created_at_unix_ms,
                        phase: CleanupPhase::Preparing,
                        vm: None,
                        os_disk: None,
                        os_disk_identifier: None,
                        data_disk: None,
                        owned_switch: None,
                        network: None,
                        warnings: Seq::empty(),
                        leftover_resources: Seq::empty(),
                    })
                },
                Err(error) => run_identity_verdict(run_id@, &run_root) == Err::<
                    (),
                    backend::Fault,
                >(error@),
            },
    {
        match validate_run_identity(run_id.as_str(), &run_root) {
            Err(error) => {
                return Err(error);
            },
            Ok(_) => {},
        }
        let warnings: Vec<String> = Vec::new();
        let leftover_resources: Vec<String> = Vec::new();
        proof {
            assert(text::views(warnings@) =~= Seq::<Seq<char>>::empty());
        }
        Ok(
            CleanupJournal {
                schema_version: CLEANUP_JOURNAL_SCHEMA_VERSION,
                sequence: 0,
                run_id,
                run_root,
                created_at_unix_ms: now_unix_ms(),
                phase: CleanupPhase::Preparing,
                vm: None,
                os_disk: None,
                os_disk_identifier: None,
                data_disk: None,
                owned_switch: None,
                network: None,
                warnings,
                leftover_resources,
            },
        )
    }
}

impl JournalView {
    /// Why no further generation can be written.
    pub open spec fn persist_fault(self, program_data: Option<&HostPath>) -> Option<backend::Fault> {
        match self.verdict(program_data) {
            Err(error) => Some(error),
            Ok(_) => if self.sequence >= MAX_JOURNAL_SEQUENCE {
                Some(
                    backend::fault(
                        "hyperv_cleanup_journal"@,
                        "cleanup journal exceeded its bounded generation count"@,
                    ),
                )
            } else {
                None
            },
        }
    }

    /// The journal as its next generation.
    pub open spec fn next_generation(self) -> JournalView {
        JournalView { sequence: (self.sequence + 1) as u64, ..self }
    }
}

impl CleanupJournal {
    /// The journal under its next number.
    pub open spec fn bumped(self) -> CleanupJournal {
        CleanupJournal { sequence: (self.sequence + 1) as u64, ..self }
    }

    /// Makes the journal its next generation and gives the path that it is to be written to. The
    /// generation number is used up even where the file cannot be written.
    pub fn persist(&mut self, program_data: Option<&HostPath>) -> (path: SandboxResult<HostPath>)
        ensures
            match path {
                Ok(target) => {
                    &&& old(self)@.persist_fault(program_data) is None
                    &&& final(self)@ == old(self)@.next_generation()
                    &&& *final(self) == old(self).bumped()
                    &&& target.extends(
                        &old(self).run_root,
                        journal_name((old(self).sequence + 1) as nat),
                    )
                },
                Err(error) => {
                    &&& old(self)@.persist_fault(program_data) == Some(error@)
                    &&& *final(self) == *old(self)
                },
            },
    {
        match validate_journal(self, program_data) {
            Err(error) => {
                return Err(error);
            },
            Ok(_) => {},
        }
        if self.sequence >= MAX_JOURNAL_SEQUENCE {
            return Err(
                SandboxError::new(
                    "hyperv_cleanup_journal",
                    "cleanup journal exceeded its bounded generation count",
                ),
            );
        }
        self.sequence = self.sequence + 1;
        let name = generation_name(self.sequence);
        Ok(self.run_root.join(name.as_str()))
    }
}

/// Whether the bytes of a generation may be written.
pub fn check_journal_len(len: u64) -> (verdict: SandboxResult<()>)
    ensures
        backend::outcome(verdict) == if len > MAX_JOURNAL_BYTES {
            Err(
                backend::fault(
                    "hyperv_cleanup_journal"@,
                    "cleanup journal exceeds its size limit"@,
                ),
            )
        } else {
            Ok(())
        },
{
    if len > MAX_JOURNAL_BYTES {
        return Err(
            SandboxError::new("hyperv_cleanup_journal", "cleanup journal exceeds its size limit"),
        );
    }
    Ok(())
}

// ---------------------------------------------------------------------------------------------
// Recovery of the latest generation
// ---------------------------------------------------------------------------------------------

/// The search for the latest valid generation among the entries of a run directory.
pub struct JournalSearch {
    pub entries: u64,
    pub latest: Option<CleanupJournal>,
}

/// A generation that may be recovered: stored under its own number, bound to the directory that it
/// was found in, and valid.
pub open spec fn recoverable(
    candidate: JournalView,
    sequence: u64,
    run_root: &HostPath,
    program_data: Option<&HostPath>,
) -> bool {
    &&& candidate.sequence == sequence
    &&& candidate.run_root.same(run_root)
    &&& candidate.verdict(program_data) is Ok
}

impl JournalSearch {
    pub fn new(run_root: &HostPath) -> (search: SandboxResult<JournalSearch>)
        ensures
            match (run_root.local_fault, search) {
                (Some(source), Err(error)) => error@ == backend::fault_from(
                    "hyperv_cleanup_journal"@,
                    "cleanup recovery root must be an absolute local path"@,
                    source@,
                ),
                (None, Ok(made)) => made.entries == 0 && made.latest is None,
                _ => false,
            },
    {
        match &run_root.local_fault {
            Some(source) => Err(
                SandboxError::with_source(
                    "hyperv_cleanup_journal",
                    "cleanup recovery root must be an absolute local path",
                    source.as_str(),
                ),
            ),
            None => Ok(JournalSearch { entries: 0, latest: None }),
        }
    }

    /// Counts one more entry of the directory.
    pub fn count_entry(&mut self) -> (verdict: SandboxResult<()>)
        requires
            old(self).entries <= MAX_JOURNAL_SEQUENCE + MAX_OTHER_ENTRIES,
        ensures
            final(self).latest == old(self).latest,
            final(self).entries == old(self).entries + 1,
            backend::outcome(verdict) == if final(self).entries > MAX_JOURNAL_SEQUENCE
                + MAX_OTHER_ENTRIES {
                Err(
                    backend::fault(
                        "hyperv_cleanup_journal"@,
                        "cleanup run directory contains too many entries"@,
                    ),
                )
            } else {
                Ok(())
            },
    {
        self.entries = self.entries + 1;
        if self.entries > MAX_JOURNAL_SEQUENCE + MAX_OTHER_ENTRIES {
            return Err(
                SandboxError::new(
                    "hyperv_cleanup_journal",
                    "cleanup run directory contains too many entries",
                ),
            );
        }
        Ok(())
    }

    /// Whether a file of this length can hold a generation.
    pub fn admits_len(len: u64) -> (yes: bool)
        ensures
            yes == (0 < len <= MAX_JOURNAL_BYTES),
    {
        0 < len && len <= MAX_JOURNAL_BYTES
    }

    /// Takes a generation, found under the number `sequence`, for the latest one if it is
    /// recoverable and later than the latest one so far.
    pub fn consider(
        &mut self,
        candidate: CleanupJournal,
        sequence: u64,
        run_root: &HostPath,
        program_data: Option<&HostPath>,
    )
        ensures
            final(self).entries == old(self).entries,
            final(self).latest == if recoverable(candidate@, sequence, run_root, program_data) && (
            old(self).latest matches Some(current) ==> candidate.sequence > current.sequence) {
                Some(candidate)
            } else {
                old(self).latest
            },
    {
        if candidate.sequence != sequence || !same_run_root(&candidate.run_root, run_root)
            || validate_journal(&candidate, program_data).is_err() {
            return;
        }
        let later = match &self.latest {
            Some(current) => candidate.sequence > current.sequence,
            None => true,
        };
        if later {
            self.latest = Some(candidate);
        }
    }
}

// ---------------------------------------------------------------------------------------------
// Laws
// ---------------------------------------------------------------------------------------------

/// The generation that a generation's file name denotes is that generation.
pub proof fn journal_names_denote_their_sequence(sequence: nat)
    requires
        1 <= sequence <= MAX_JOURNAL_SEQUENCE,
    ensures
        sequence_of_name(journal_name(sequence)) == Some(sequence),
{
    reveal_strlit("cleanup-journal-");
    reveal_strlit(".json");
    let name = journal_name(sequence);
    let prefix = "cleanup-journal-"@;
    let suffix = ".json"@;
    let digits = six_digits(sequence);
    assert(name.take(prefix.len() as int) =~= prefix);
    let rest = name.skip(prefix.len() as int);
    assert(rest =~= digits + suffix);
    assert(rest.skip(rest.len() - suffix.len()) =~= suffix);
    assert(rest.take(rest.len() - suffix.len()) =~= digits);
    assert(text::all_digits(digits));
    lemma_six_digits(sequence);
}

/// No two file names denote the same generation.
pub proof fn journal_names_are_unique(first: Seq<char>, second: Seq<char>)
    requires
        sequence_of_name(first) is Some,
        sequence_of_name(first) == sequence_of_name(second),
    ensures
        first == second,
{
    reveal_strlit("cleanup-journal-");
    reveal_strlit(".json");
    let prefix = "cleanup-journal-"@;
    let suffix = ".json"@;
    let first_rest = first.skip(prefix.len() as int);
    let second_rest = second.skip(prefix.len() as int);
    let first_digits = first_rest.take(first_rest.len() - suffix.len());
    let second_digits = second_rest.take(second_rest.len() - suffix.len());
    lemma_equal_digits(first_digits, second_digits);
    assert(first =~= prefix + first_digits + suffix) by {
        assert(first =~= first.take(prefix.len() as int) + first_rest);
        assert(first_rest =~= first_digits + first_rest.skip(first_rest.len() - suffix.len()));
    }
    assert(second =~= prefix + second_digits + suffix) by {
        assert(second =~= second.take(prefix.len() as int) + second_rest);
        assert(second_rest =~= second_digits + second_rest.skip(second_rest.len() - suffix.len()));
    }
}

/// Digits of the same count and value are the same.
proof fn lemma_equal_digits(first: Seq<char>, second: Seq<char>)
    requires
        first.len() == second.len(),
        text::all_digits(first),
        text::all_digits(second),
        text::digits_value(first) == text::digits_value(second),
    ensures
        first == second,
    decreases first.len(),
{
    if first.len() > 0 {
        let a = first.drop_last();
        let b = second.drop_last();
        assert(text::all_digits(a)) by {
            assert forall|i: int| 0 <= i < a.len() implies text::is_digit(#[trigger] a[i]) by {
                assert(a[i] == first[i]);
            }
        }
        assert(text::all_digits(b)) by {
            assert forall|i: int| 0 <= i < b.len() implies text::is_digit(#[trigger] b[i]) by {
                assert(b[i] == second[i]);
            }
        }
        assert(text::is_digit(first[first.len() - 1]));
        assert(text::is_digit(second[second.len() - 1]));
        lemma_equal_digits(a, b);
        assert(first =~= a.push(first.last()));
        assert(second =~= b.push(second.last()));
    } else {
        assert(first =~= second);
    }
}

proof fn lemma_six_digits(n: nat)
    requires
        n < 1_000_000,
    ensures
        text::digits_value(six_digits(n)) == n,
{
    let digits = six_digits(n);
    let five = digits.drop_last();
    let four = five.drop_last();
    let three = four.drop_last();
    let two = three.drop_last();
    let one = two.drop_last();
    lemma_leading_digits(n);
    assert(one.drop_last() =~= Seq::<char>::empty());
    lemma_last_digit(one, n / 100_000);
    lemma_last_digit(two, n / 10_000);
    lemma_last_digit(three, n / 1000);
    lemma_last_digit(four, n / 100);
    lemma_last_digit(five, n / 10);
    lemma_last_digit(digits, n);
}

/// Dropping the last digit of a number divides it by ten.
proof fn lemma_leading_digits(n: nat)
    requires
        n < 1_000_000,
    ensures
        n / 10 / 10 == n / 100,
        n / 100 / 10 == n / 1000,
        n / 1000 / 10 == n / 10_000,
        n / 10_000 / 10 == n / 100_000,
        n / 100_000 / 10 == 0,
{
}

proof fn lemma_last_digit(digits: Seq<char>, n: nat)
    requires
        digits.len() > 0,
        digits.last() == text::digit_char(n % 10),
        text::digits_value(digits.drop_last()) == n / 10,
    ensures
        text::digits_value(digits) == n,
{
    reveal_with_fuel(text::digits_value, 2);
}

/// A valid journal that is finished names no resource of the run.
pub proof fn finished_journals_name_nothing(journal: JournalView, program_data: Option<&HostPath>)
    requires
        journal.verdict(program_data) is Ok,
        journal.phase == CleanupPhase::Finished,
    ensures
        journal.names_nothing(),
        journal.os_disk_identifier is None,
        journal.leftover_resources.len() == 0,
{
}

/// A generation that was written is recovered under its own number; no generation is ever beyond
/// the bounded count.
pub proof fn written_generations_are_recoverable(
    journal: JournalView,
    program_data: Option<&HostPath>,
)
    requires
        journal.persist_fault(program_data) is None,
    ensures
        journal.next_generation().sequence == journal.sequence + 1,
        journal.next_generation().sequence <= MAX_JOURNAL_SEQUENCE,
        recoverable(
            journal.next_generation(),
            journal.next_generation().sequence,
            &journal.run_root,
            program_data,
        ),
        sequence_of_name(journal_name(journal.next_generation().sequence as nat)) == Some(
            journal.next_generation().sequence as nat,
        ),
{
    let next = journal.next_generation();
    journal_names_denote_their_sequence(next.sequence as nat);
    assert(next.bounded());
    assert(next.vm_verdict() == journal.vm_verdict());
    assert(next.os_disk_verdict() == journal.os_disk_verdict());
    assert(next.data_disk_verdict() == journal.data_disk_verdict());
    assert(next.finish_verdict() == journal.finish_verdict());
}

/// The run of a journal is named by 16 to 64 hexadecimal digits, and its directory by the run.
pub proof fn journals_are_of_a_named_run(run_id: Seq<char>, run_root: &HostPath)
    ensures
        run_identity_verdict(run_id, run_root) is Ok <==> {
            &&& network::run_id_verdict(run_id) is Ok
            &&& run_root.absolute
            &&& host_path::name_of(run_root.spec_parts()) == Some(run_id)
            &&& run_root.local_fault is None
        },
        run_identity_verdict(run_id, run_root) matches Err(fault) ==> fault.stage
            == "hyperv_cleanup_journal"@,
{
}

/// A resource is named by one to 128 letters, digits, hyphens, underscores and braces.
pub proof fn resource_names_are_plain(identifier: Seq<char>)
    ensures
        resource_identifier(identifier) <==> 1 <= identifier.len() <= 128 && (forall|i: int|
            0 <= i < identifier.len() ==> {
                let c = #[trigger] identifier[i];
                'a' <= c <= 'z' || 'A' <= c <= 'Z' || '0' <= c <= '9' || c == '-' || c == '_' || c
                    == '{' || c == '}'
            }),
        resource_identifier_verdict(identifier) is Ok <==> resource_identifier(identifier),
{
    if resource_identifier(identifier) {
        assert forall|i: int| 0 <= i < identifier.len() implies ({
            let c = #[trigger] identifier[i];
            'a' <= c <= 'z' || 'A' <= c <= 'Z' || '0' <= c <= '9' || c == '-' || c == '_' || c == '{'
                || c == '}'
        }) by {
            assert(resource_char(identifier[i]));
        }
    }
}

/// A journal is accepted exactly where it is of a known schema and within its bounds, of a named run,
/// and every resource that it names is the run's: the machine by its name and place, the disks by
/// place and identity, a switch that is not the default one, and the network of the run; a finished
/// one names nothing at all.
pub proof fn accepted_journals(journal: JournalView, program_data: Option<&HostPath>)
    ensures
        journal.verdict(program_data) is Ok <==> {
            &&& 1 <= journal.schema_version <= 3
            &&& journal.created_at_unix_ms != 0
            &&& journal.sequence <= 10_000
            &&& journal.warnings.len() <= 512
            &&& journal.leftover_resources.len() <= 128
            &&& forall|i: int|
                0 <= i < journal.warnings.len() ==> vstd::utf8::encode_utf8(
                    #[trigger] journal.warnings[i],
                ).len() <= 4096 && !journal.warnings[i].contains('\0')
            &&& forall|i: int|
                0 <= i < journal.leftover_resources.len() ==> vstd::utf8::encode_utf8(
                    #[trigger] journal.leftover_resources[i],
                ).len() <= 4096 && !journal.leftover_resources[i].contains('\0')
            &&& run_identity_verdict(journal.run_id, &journal.run_root) is Ok
            &&& journal.vm matches Some(machine) ==> {
                &&& machine.name@ == "foxhole-"@ + journal.run_id
                &&& machine.generation == 2
                &&& machine.configuration_path.within(&journal.run_root)
                &&& !machine.configuration_path.equals(&journal.run_root)
                &&& resource_identifier(machine.id@)
            }
            &&& journal.os_disk matches Some(path) ==> disk::owned_path_verdict(
                &path,
                &journal.run_root,
            ) is Ok && (journal.os_disk_identifier is Some || journal.schema_version == 1
                || journal.phase == CleanupPhase::Preparing)
            &&& journal.os_disk_identifier matches Some(identifier) ==> journal.os_disk is Some
                && resource_identifier(identifier@)
            &&& journal.data_disk_verdict() is Ok
            &&& journal.owned_switch matches Some(switch) ==> {
                &&& resource_identifier(switch.id@)
                &&& !text::blank(switch.name@)
                &&& vstd::utf8::encode_utf8(switch.name@).len() <= 80
                &&& !text::same_ignoring_case(switch.name@, "Default Switch"@)
                &&& !text::has_control(switch.name@)
            }
            &&& journal.network matches Some(resources) ==> resources.journal_verdict(
                journal.run_id,
                &journal.run_root,
                program_data,
            ) is Ok
            &&& journal.phase == CleanupPhase::Finished ==> {
                &&& journal.vm is None
                &&& journal.os_disk is None
                &&& journal.os_disk_identifier is None
                &&& journal.data_disk is None
                &&& journal.owned_switch is None
                &&& journal.network is None
                &&& journal.leftover_resources.len() == 0
            }
        },
{
    lemma_bounded_diagnostics(journal.warnings);
    lemma_bounded_diagnostics(journal.leftover_resources);
}

proof fn lemma_bounded_diagnostics(list: Seq<Seq<char>>)
    ensures
        bounded_diagnostics(list) <==> (forall|i: int|
            0 <= i < list.len() ==> vstd::utf8::encode_utf8(#[trigger] list[i]).len() <= 4096
                && !list[i].contains('\0')),
{
    if bounded_diagnostics(list) {
        assert forall|i: int| 0 <= i < list.len() implies vstd::utf8::encode_utf8(
            #[trigger] list[i],
        ).len() <= 4096 && !list[i].contains('\0') by {
            assert(bounded_diagnostic(list[i]));
        }
    }
}

/// The data disk of a journal is the one of the run, by its name, its mount point, its label and its
/// size, and by its identifiers once it was made.
pub proof fn accepted_data_disks(journal: JournalView, data: RunDataDisk)
    requires
        journal.data_disk == Some(data),
    ensures
        journal.data_disk_verdict() is Ok <==> {
            &&& disk::owned_path_verdict(&data.path, &journal.run_root) is Ok
            &&& host_path::name_of(data.path.spec_parts()) == Some("run-data.vhdx"@)
            &&& host_path::same_parts(
                data.mount_path.style,
                data.mount_path.spec_parts(),
                journal.run_root.spec_parts().push(host_path::PartView::Normal("data-mount"@)),
            )
            &&& data.label@ == data_disk::label_text(journal.run_id)
            &&& 64 * 1024 * 1024 <= data.size_bytes <= 8 * 1024 * 1024 * 1024
            &&& data.disk_unique_id is Some ==> resource_identifier(data.disk_unique_id->0@)
            &&& data.vhd_identifier is Some ==> resource_identifier(data.vhd_identifier->0@)
            &&& data.state == DataDiskState::Planned || journal.schema_version == 1 || (
            data.disk_unique_id is Some && data.vhd_identifier is Some)
        },
{
}

/// A journal is written exactly where it is accepted and its generations are not used up; each
/// generation differs from the one before in nothing but its number.
pub proof fn generations_differ_by_their_number(journal: JournalView, program_data: Option<&HostPath>)
    ensures
        journal.persist_fault(program_data) is None <==> journal.verdict(program_data) is Ok
            && journal.sequence < 10_000,
        journal.persist_fault(program_data) is None ==> journal.next_generation().sequence
            == journal.sequence + 1,
        journal.next_generation().run_id == journal.run_id,
        journal.next_generation().phase == journal.phase,
        journal.next_generation().vm == journal.vm,
        journal.next_generation().os_disk == journal.os_disk,
        journal.next_generation().data_disk == journal.data_disk,
        journal.next_generation().network == journal.network,
        journal.next_generation().warnings == journal.warnings,
{
}

/// The name of a generation is a fixed beginning, six characters for its number, and a fixed end.
pub proof fn journal_names_begin_and_end_alike(sequence: nat)
    ensures
        text::begins(journal_name(sequence), "cleanup-journal-"@),
        text::ends(journal_name(sequence), ".json"@),
        journal_name(sequence).len() == "cleanup-journal-"@.len() + 6 + ".json"@.len(),
{
    let name = journal_name(sequence);
    let head = "cleanup-journal-"@;
    let tail = ".json"@;
    assert(name.take(head.len() as int) =~= head);
    assert(name.skip(name.len() - tail.len()) =~= tail);
}

} // verus!
