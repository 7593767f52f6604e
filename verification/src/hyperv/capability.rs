//! What the host must be capable of for Hyper-V runs.

use vstd::prelude::*;
use vstd::string::*;

use crate::backend;
use crate::backend::{SandboxError, SandboxResult};
use crate::hyperv::powershell::PowerShellInvocation;
use crate::hyperv::scripts;
use crate::text;

verus! {

/// The commands that every run needs.
#[verifier::opaque]
pub open spec fn required_names() -> Seq<Seq<char>> {
    seq![
        "Get-VMHost"@,
        "Get-VM"@,
        "New-VM"@,
        "Set-VM"@,
        "Set-VMProcessor"@,
        "Set-VMMemory"@,
        "Set-VMFirmware"@,
        "Start-VM"@,
        "Stop-VM"@,
        "Remove-VM"@,
        "Get-VHD"@,
        "New-VHD"@,
        "Mount-VHD"@,
        "Dismount-VHD"@,
        "Add-VMHardDiskDrive"@,
        "Remove-VMHardDiskDrive"@,
        "Get-VMHardDiskDrive"@,
        "Get-VMNetworkAdapter"@,
        "Get-VMIntegrationService"@,
        "Add-VMNetworkAdapter"@,
        "Remove-VMNetworkAdapter"@,
        "Get-VMSwitch"@,
        "Get-VMSnapshot"@,
        "Remove-VMSnapshot"@,
        "Get-Disk"@,
        "Initialize-Disk"@,
        "Get-Partition"@,
        "New-Partition"@,
        "Add-PartitionAccessPath"@,
        "Remove-PartitionAccessPath"@,
        "Format-Volume"@,
        "Get-Volume"@,
    ]
}

/// The commands that only controlled networking needs besides.
#[verifier::opaque]
pub open spec fn controlled_network_names() -> Seq<Seq<char>> {
    seq![
        "Get-NetAdapter"@,
        "Get-NetAdapterBinding"@,
        "Get-NetIPAddress"@,
        "Get-NetNat"@,
        "Get-NetNatStaticMapping"@,
        "Get-NetRoute"@,
        "Get-NetTCPConnection"@,
        "Get-NetFirewallRule"@,
        "New-NetFirewallRule"@,
        "Remove-NetFirewallRule"@,
        "Get-NetFirewallAddressFilter"@,
        "Get-NetFirewallPortFilter"@,
        "Get-NetFirewallInterfaceFilter"@,
        "Get-VMNetworkAdapterExtendedAcl"@,
        "Add-VMNetworkAdapterExtendedAcl"@,
        "Remove-VMNetworkAdapterExtendedAcl"@,
        "Get-NetEventSession"@,
        "New-NetEventSession"@,
        "Add-NetEventPacketCaptureProvider"@,
        "Get-NetEventPacketCaptureProvider"@,
        "Start-NetEventSession"@,
        "Stop-NetEventSession"@,
        "Remove-NetEventSession"@,
    ]
}

/// The views of a list of names.
pub open spec fn name_views(names: Seq<&'static str>) -> Seq<Seq<char>> {
    names.map_values(|name: &'static str| name@)
}

/// The commands that every run needs.
pub fn required_cmdlets() -> (names: Vec<&'static str>)
    ensures
        name_views(names@) == required_names(),
        names@.len() == 32,
{
    let names: Vec<&'static str> = vec![
        "Get-VMHost",
        "Get-VM",
        "New-VM",
        "Set-VM",
        "Set-VMProcessor",
        "Set-VMMemory",
        "Set-VMFirmware",
        "Start-VM",
        "Stop-VM",
        "Remove-VM",
        "Get-VHD",
        "New-VHD",
        "Mount-VHD",
        "Dismount-VHD",
        "Add-VMHardDiskDrive",
        "Remove-VMHardDiskDrive",
        "Get-VMHardDiskDrive",
        "Get-VMNetworkAdapter",
        "Get-VMIntegrationService",
        "Add-VMNetworkAdapter",
        "Remove-VMNetworkAdapter",
        "Get-VMSwitch",
        "Get-VMSnapshot",
        "Remove-VMSnapshot",
        "Get-Disk",
        "Initialize-Disk",
        "Get-Partition",
        "New-Partition",
        "Add-PartitionAccessPath",
        "Remove-PartitionAccessPath",
        "Format-Volume",
        "Get-Volume",
    ];
    proof {
        reveal(required_names);
        assert(name_views(names@) =~= required_names());
    }
    names
}

/// The commands that only controlled networking needs besides.
pub fn controlled_network_cmdlets() -> (names: Vec<&'static str>)
    ensures
        name_views(names@) == controlled_network_names(),
        names@.len() == 23,
{
    let names: Vec<&'static str> = vec![
        "Get-NetAdapter",
        "Get-NetAdapterBinding",
        "Get-NetIPAddress",
        "Get-NetNat",
        "Get-NetNatStaticMapping",
        "Get-NetRoute",
        "Get-NetTCPConnection",
        "Get-NetFirewallRule",
        "New-NetFirewallRule",
        "Remove-NetFirewallRule",
        "Get-NetFirewallAddressFilter",
        "Get-NetFirewallPortFilter",
        "Get-NetFirewallInterfaceFilter",
        "Get-VMNetworkAdapterExtendedAcl",
        "Add-VMNetworkAdapterExtendedAcl",
        "Remove-VMNetworkAdapterExtendedAcl",
        "Get-NetEventSession",
        "New-NetEventSession",
        "Add-NetEventPacketCaptureProvider",
        "Get-NetEventPacketCaptureProvider",
        "Start-NetEventSession",
        "Stop-NetEventSession",
        "Remove-NetEventSession",
    ];
    proof {
        reveal(controlled_network_names);
        assert(name_views(names@) =~= controlled_network_names());
    }
    names
}

fn owned_names(names: &Vec<&'static str>) -> (owned: Vec<String>)
    ensures
        text::views(owned@) == name_views(names@),
{
    let mut owned: Vec<String> = Vec::new();
    let mut i: usize = 0;
    proof {
        assert(text::views(owned@) =~= name_views(names@).take(0));
    }
    while i < names.len()
        invariant
            i <= names@.len(),
            text::views(owned@) == name_views(names@).take(i as int),
        decreases names@.len() - i,
    {
        let ghost before = owned@;
        let name = names[i].to_owned();
        owned.push(name);
        proof {
            assert(text::views(owned@) =~= text::views(before).push(name@));
            assert(text::views(owned@) =~= name_views(names@).take(i + 1));
        }
        i = i + 1;
    }
    proof {
        assert(name_views(names@).take(i as int) =~= name_views(names@));
    }
    owned
}

#[derive(Clone, Debug, PartialEq, Eq)]
pub struct CapabilityIssue {
    pub code: String,
    pub message: String,
}

#[derive(Clone, Debug, PartialEq, Eq)]
pub struct CapabilityReport {
    pub available: bool,
    pub platform_supported: bool,
    pub hypervisor_present: bool,
    pub feature_enabled: bool,
    pub vmms_running: bool,
    pub management_access: bool,
    pub module_version: Option<String>,
    pub missing_cmdlets: Vec<String>,
    pub network_missing_cmdlets: Vec<String>,
    pub issues: Vec<CapabilityIssue>,
}

/// An issue as diagnostics show it.
pub open spec fn issue_text(issue: CapabilityIssue) -> Seq<char> {
    issue.code@ + ": "@ + issue.message@
}

pub open spec fn issue_texts(issues: Seq<CapabilityIssue>) -> Seq<Seq<char>> {
    issues.map_values(|issue: CapabilityIssue| issue_text(issue))
}

impl CapabilityReport {
    /// The report of a host that is not Windows.
    pub fn unsupported_platform() -> (report: CapabilityReport)
        ensures
            !report.available,
            !report.platform_supported,
            !report.hypervisor_present,
            !report.feature_enabled,
            !report.vmms_running,
            !report.management_access,
            report.module_version is None,
            text::views(report.missing_cmdlets@) == required_names(),
            text::views(report.network_missing_cmdlets@) == controlled_network_names(),
            report.issues@.len() == 1,
            report.issues@[0].code@ == "unsupported_platform"@,
            report.issues@[0].message@ == "Hyper-V is supported only on Windows hosts"@,
    {
        let required = required_cmdlets();
        let controlled = controlled_network_cmdlets();
        let mut issues: Vec<CapabilityIssue> = Vec::new();
        issues.push(
            CapabilityIssue {
                code: "unsupported_platform".to_owned(),
                message: "Hyper-V is supported only on Windows hosts".to_owned(),
            },
        );
        CapabilityReport {
            available: false,
            platform_supported: false,
            hypervisor_present: false,
            feature_enabled: false,
            vmms_running: false,
            management_access: false,
            module_version: None,
            missing_cmdlets: owned_names(&required),
            network_missing_cmdlets: owned_names(&controlled),
            issues,
        }
    }

    /// Every control is reported, and no needed command is missing.
    pub open spec fn complete(&self) -> bool {
        &&& self.available
        &&& self.platform_supported
        &&& self.hypervisor_present
        &&& self.feature_enabled
        &&& self.vmms_running
        &&& self.management_access
        &&& self.missing_cmdlets@.len() == 0
    }

    pub open spec fn availability_verdict(&self) -> Result<(), backend::Fault> {
        if self.complete() {
            Ok(())
        } else {
            Err(
                backend::fault(
                    "hyperv_capability"@,
                    "Hyper-V is unavailable: "@ + if self.issues@.len() == 0 {
                        "the capability report is internally inconsistent"@
                    } else {
                        text::join(issue_texts(self.issues@), "; "@)
                    },
                ),
            )
        }
    }

    pub open spec fn network_verdict(&self) -> Result<(), backend::Fault> {
        backend::both(
            self.availability_verdict(),
            if self.network_missing_cmdlets@.len() == 0 {
                Ok(())
            } else {
                Err(
                    backend::fault(
                        "hyperv_network_capability"@,
                        "controlled Hyper-V networking is unavailable because required commands are missing: "@
                            + text::join(text::views(self.network_missing_cmdlets@), ", "@),
                    ),
                )
            },
        )
    }

    fn issue_lines(&self) -> (lines: Vec<String>)
        ensures
            text::views(lines@) == issue_texts(self.issues@),
    {
        let mut lines: Vec<String> = Vec::new();
        let mut i: usize = 0;
        proof {
            assert(text::views(lines@) =~= issue_texts(self.issues@).take(0));
        }
        while i < self.issues.len()
            invariant
                i <= self.issues@.len(),
                text::views(lines@) == issue_texts(self.issues@).take(i as int),
            decreases self.issues@.len() - i,
        {
            let ghost before = lines@;
            let line = text::cat3(
                self.issues[i].code.as_str(),
                ": ",
                self.issues[i].message.as_str(),
            );
            lines.push(line);
            proof {
                assert(text::views(lines@) =~= text::views(before).push(line@));
                assert(text::views(lines@) =~= issue_texts(self.issues@).take(i + 1));
            }
            i = i + 1;
        }
        proof {
            assert(issue_texts(self.issues@).take(i as int) =~= issue_texts(self.issues@));
        }
        lines
    }

    pub fn require_available(&self) -> (verdict: SandboxResult<()>)
        ensures
            backend::outcome(verdict) == self.availability_verdict(),
    {
        if self.available && self.platform_supported && self.hypervisor_present
            && self.feature_enabled && self.vmms_running && self.management_access
            && self.missing_cmdlets.len() == 0 {
            return Ok(());
        }
        let details = if self.issues.len() == 0 {
            "the capability report is internally inconsistent".to_owned()
        } else {
            let lines = self.issue_lines();
            text::join_with(&lines, "; ")
        };
        let message = text::cat2("Hyper-V is unavailable: ", details.as_str());
        Err(SandboxError::new("hyperv_capability", message.as_str()))
    }

    pub fn require_controlled_network_available(&self) -> (verdict: SandboxResult<()>)
        ensures
            backend::outcome(verdict) == self.network_verdict(),
    {
        match self.require_available() {
            Err(error) => {
                return Err(error);
            },
            Ok(_) => {},
        }
        if self.network_missing_cmdlets.len() == 0 {
            return Ok(());
        }
        let missing = text::join_with(&self.network_missing_cmdlets, ", ");
        let message = text::cat2(
            "controlled Hyper-V networking is unavailable because required commands are missing: ",
            missing.as_str(),
        );
        Err(SandboxError::new("hyperv_network_capability", message.as_str()))
    }
}

/// The data of a script that takes none.
#[derive(Clone, Copy, Debug, PartialEq, Eq)]
pub struct NoInput {}

/// The invocation that reports what the host is capable of.
pub fn detect() -> (invocation: PowerShellInvocation<NoInput>)
    ensures
        invocation.operation@ == "detect Hyper-V capability"@,
        invocation.script@ == scripts::DETECT_CAPABILITY_SCRIPT@,
        invocation.admission_limits_are_default(),
{
    PowerShellInvocation::new(
        "detect Hyper-V capability",
        scripts::DETECT_CAPABILITY_SCRIPT,
        NoInput {  },
    )
}

/// Every name is one of the known ones.
pub open spec fn all_known(names: Seq<Seq<char>>, known: Seq<Seq<char>>) -> bool {
    forall|i: int| 0 <= i < names.len() ==> known.contains(#[trigger] names[i])
}

fn is_known(name: &str, known: &Vec<&'static str>) -> (yes: bool)
    ensures
        yes == name_views(known@).contains(name@),
{
    let mut i: usize = 0;
    while i < known.len()
        invariant
            i <= known@.len(),
            forall|j: int| 0 <= j < i ==> #[trigger] name_views(known@)[j] != name@,
        decreases known@.len() - i,
    {
        if text::same_text(name, known[i]) {
            proof {
                assert(name_views(known@)[i as int] == name@);
            }
            return true;
        }
        i = i + 1;
    }
    false
}

fn are_known(names: &Vec<String>, known: &Vec<&'static str>) -> (yes: bool)
    ensures
        yes == all_known(text::views(names@), name_views(known@)),
{
    let mut i: usize = 0;
    while i < names.len()
        invariant
            i <= names@.len(),
            forall|j: int|
                0 <= j < i ==> name_views(known@).contains(#[trigger] text::views(names@)[j]),
        decreases names@.len() - i,
    {
        if !is_known(names[i].as_str(), known) {
            proof {
                assert(!name_views(known@).contains(text::views(names@)[i as int]));
            }
            return false;
        }
        i = i + 1;
    }
    true
}

pub open spec fn report_verdict(report: &CapabilityReport) -> Result<(), backend::Fault> {
    if !all_known(text::views(report.missing_cmdlets@), required_names()) {
        Err(
            backend::fault(
                "hyperv_capability"@,
                "capability report contains an unexpected cmdlet name"@,
            ),
        )
    } else if !all_known(text::views(report.network_missing_cmdlets@), controlled_network_names()) {
        Err(
            backend::fault(
                "hyperv_capability"@,
                "capability report contains an unexpected controlled-network cmdlet name"@,
            ),
        )
    } else {
        Ok(())
    }
}

/// Checks what the host reported.
pub fn accept_report(report: &CapabilityReport) -> (verdict: SandboxResult<()>)
    ensures
        backend::outcome(verdict) == report_verdict(report),
{
    let required = required_cmdlets();
    if !are_known(&report.missing_cmdlets, &required) {
        return Err(
            SandboxError::new(
                "hyperv_capability",
                "capability report contains an unexpected cmdlet name",
            ),
        );
    }
    let controlled = controlled_network_cmdlets();
    if !are_known(&report.network_missing_cmdlets, &controlled) {
        return Err(
            SandboxError::new(
                "hyperv_capability",
                "capability report contains an unexpected controlled-network cmdlet name",
            ),
        );
    }
    Ok(())
}

/// A host that is not reported complete in every control is refused, for plain and for controlled
/// runs alike.
pub proof fn incomplete_reports_fail_closed(report: &CapabilityReport)
    ensures
        report.availability_verdict() is Ok <==> report.complete(),
        report.network_verdict() is Ok <==> report.complete()
            && report.network_missing_cmdlets@.len() == 0,
{
}

/// Hyper-V counts as available exactly where every part of the report says so and no command is
/// missing, and for a controlled network none of the network commands either.
pub proof fn availability_takes_every_part(report: &CapabilityReport)
    ensures
        report.availability_verdict() is Ok <==> {
            &&& report.available
            &&& report.platform_supported
            &&& report.hypervisor_present
            &&& report.feature_enabled
            &&& report.vmms_running
            &&& report.management_access
            &&& report.missing_cmdlets@.len() == 0
        },
        report.network_verdict() is Ok <==> report.availability_verdict() is Ok
            && report.network_missing_cmdlets@.len() == 0,
        report.availability_verdict() matches Err(fault) ==> fault.stage == "hyperv_capability"@,
{
}

/// The commands that a host needs for its machines and disks.
#[verifier::rlimit(60)]
#[verifier::spinoff_prover]
pub proof fn needed_commands(name: Seq<char>)
    ensures
        required_names().contains(name) <==> {
            ||| name == "Get-VMHost"@
            ||| name == "Get-VM"@
            ||| name == "New-VM"@
            ||| name == "Set-VM"@
            ||| name == "Set-VMProcessor"@
            ||| name == "Set-VMMemory"@
            ||| name == "Set-VMFirmware"@
            ||| name == "Start-VM"@
            ||| name == "Stop-VM"@
            ||| name == "Remove-VM"@
            ||| name == "Get-VHD"@
            ||| name == "New-VHD"@
            ||| name == "Mount-VHD"@
            ||| name == "Dismount-VHD"@
            ||| name == "Add-VMHardDiskDrive"@
            ||| name == "Remove-VMHardDiskDrive"@
            ||| name == "Get-VMHardDiskDrive"@
            ||| name == "Get-VMNetworkAdapter"@
            ||| name == "Get-VMIntegrationService"@
            ||| name == "Add-VMNetworkAdapter"@
            ||| name == "Remove-VMNetworkAdapter"@
            ||| name == "Get-VMSwitch"@
            ||| name == "Get-VMSnapshot"@
            ||| name == "Remove-VMSnapshot"@
            ||| name == "Get-Disk"@
            ||| name == "Initialize-Disk"@
            ||| name == "Get-Partition"@
            ||| name == "New-Partition"@
            ||| name == "Add-PartitionAccessPath"@
            ||| name == "Remove-PartitionAccessPath"@
            ||| name == "Format-Volume"@
            ||| name == "Get-Volume"@
        },
{
    reveal(required_names);
    let all = required_names();
    assert(all.len() == 32);
    assert(all.contains(all[0]));
    assert(all.contains(all[1]));
    assert(all.contains(all[2]));
    assert(all.contains(all[3]));
    assert(all.contains(all[4]));
    assert(all.contains(all[5]));
    assert(all.contains(all[6]));
    assert(all.contains(all[7]));
    assert(all.contains(all[8]));
    assert(all.contains(all[9]));
    assert(all.contains(all[10]));
    assert(all.contains(all[11]));
    assert(all.contains(all[12]));
    assert(all.contains(all[13]));
    assert(all.contains(all[14]));
    assert(all.contains(all[15]));
    assert(all.contains(all[16]));
    assert(all.contains(all[17]));
    assert(all.contains(all[18]));
    assert(all.contains(all[19]));
    assert(all.contains(all[20]));
    assert(all.contains(all[21]));
    assert(all.contains(all[22]));
    assert(all.contains(all[23]));
    assert(all.contains(all[24]));
    assert(all.contains(all[25]));
    assert(all.contains(all[26]));
    assert(all.contains(all[27]));
    assert(all.contains(all[28]));
    assert(all.contains(all[29]));
    assert(all.contains(all[30]));
    assert(all.contains(all[31]));
    if all.contains(name) {
        let i = choose|i: int| 0 <= i < all.len() && all[i] == name;
        assert(0 <= i < 32);
    }
}

/// The commands that a host needs for controlled networks.
#[verifier::rlimit(60)]
#[verifier::spinoff_prover]
pub proof fn needed_network_commands(name: Seq<char>)
    ensures
        controlled_network_names().contains(name) <==> {
            ||| name == "Get-NetAdapter"@
            ||| name == "Get-NetAdapterBinding"@
            ||| name == "Get-NetIPAddress"@
            ||| name == "Get-NetNat"@
            ||| name == "Get-NetNatStaticMapping"@
            ||| name == "Get-NetRoute"@
            ||| name == "Get-NetTCPConnection"@
            ||| name == "Get-NetFirewallRule"@
            ||| name == "New-NetFirewallRule"@
            ||| name == "Remove-NetFirewallRule"@
            ||| name == "Get-NetFirewallAddressFilter"@
            ||| name == "Get-NetFirewallPortFilter"@
            ||| name == "Get-NetFirewallInterfaceFilter"@
            ||| name == "Get-VMNetworkAdapterExtendedAcl"@
            ||| name == "Add-VMNetworkAdapterExtendedAcl"@
            ||| name == "Remove-VMNetworkAdapterExtendedAcl"@
            ||| name == "Get-NetEventSession"@
            ||| name == "New-NetEventSession"@
            ||| name == "Add-NetEventPacketCaptureProvider"@
            ||| name == "Get-NetEventPacketCaptureProvider"@
            ||| name == "Start-NetEventSession"@
            ||| name == "Stop-NetEventSession"@
            ||| name == "Remove-NetEventSession"@
        },
{
    reveal(controlled_network_names);
    let all = controlled_network_names();
    assert(all.len() == 23);
    assert(all.contains(all[0]));
    assert(all.contains(all[1]));
    assert(all.contains(all[2]));
    assert(all.contains(all[3]));
    assert(all.contains(all[4]));
    assert(all.contains(all[5]));
    assert(all.contains(all[6]));
    assert(all.contains(all[7]));
    assert(all.contains(all[8]));
    assert(all.contains(all[9]));
    assert(all.contains(all[10]));
    assert(all.contains(all[11]));
    assert(all.contains(all[12]));
    assert(all.contains(all[13]));
    assert(all.contains(all[14]));
    assert(all.contains(all[15]));
    assert(all.contains(all[16]));
    assert(all.contains(all[17]));
    assert(all.contains(all[18]));
    assert(all.contains(all[19]));
    assert(all.contains(all[20]));
    assert(all.contains(all[21]));
    assert(all.contains(all[22]));
    if all.contains(name) {
        let i = choose|i: int| 0 <= i < all.len() && all[i] == name;
        assert(0 <= i < 23);
    }
}

/// A report is believed exactly where it misses no other commands than the needed ones.
pub proof fn believed_reports(report: &CapabilityReport)
    ensures
        report_verdict(report) is Ok <==> {
            &&& forall|i: int|
                0 <= i < report.missing_cmdlets@.len() ==> required_names().contains(
                    #[trigger] report.missing_cmdlets@[i]@,
                )
            &&& forall|i: int|
                0 <= i < report.network_missing_cmdlets@.len() ==> controlled_network_names().contains(
                    #[trigger] report.network_missing_cmdlets@[i]@,
                )
        },
{
    let missing = text::views(report.missing_cmdlets@);
    let network = text::views(report.network_missing_cmdlets@);
    assert(forall|i: int| 0 <= i < missing.len() ==> #[trigger] missing[i] == report.missing_cmdlets@[i]@);
    assert(forall|i: int|
        0 <= i < network.len() ==> #[trigger] network[i] == report.network_missing_cmdlets@[i]@);
    if report_verdict(report) is Ok {
        assert forall|i: int| 0 <= i < report.missing_cmdlets@.len() implies required_names().contains(
            #[trigger] report.missing_cmdlets@[i]@,
        ) by {
            assert(required_names().contains(missing[i]));
        }
        assert forall|i: int|
            0 <= i < report.network_missing_cmdlets@.len() implies controlled_network_names().contains(
            #[trigger] report.network_missing_cmdlets@[i]@,
        ) by {
            assert(controlled_network_names().contains(network[i]));
        }
    }
}

} // verus!
