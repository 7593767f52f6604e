//! The PowerShell scripts that act on the host. Each is fixed text: what varies from run to run is
//! handed to it as data on its standard input.

use vstd::prelude::*;

verus! {

/// Reports what the host offers for disposable virtual machines.
pub const DETECT_CAPABILITY_SCRIPT: &'static str = r#"
$ErrorActionPreference = 'Stop'
$ProgressPreference = 'SilentlyContinue'
[Console]::InputEncoding = [System.Text.UTF8Encoding]::new($false)
[Console]::OutputEncoding = [System.Text.UTF8Encoding]::new($false)
try {
    $null = [Console]::In.ReadToEnd() | ConvertFrom-Json
    $issues = New-Object System.Collections.Generic.List[object]
    $featureEnabled = $false
    try {
        $feature = Get-WindowsOptionalFeature -Online -FeatureName Microsoft-Hyper-V-All -ErrorAction Stop
        $featureEnabled = $feature.State -eq 'Enabled'
        if (-not $featureEnabled) {
            $issues.Add([ordered]@{ code = 'feature_disabled'; message = 'Microsoft-Hyper-V-All is not enabled' })
        }
    } catch {
        $issues.Add([ordered]@{ code = 'feature_probe_failed'; message = $_.Exception.Message })
    }

    $vmmsRunning = $false
    try {
        $service = Get-Service -Name vmms -ErrorAction Stop
        $vmmsRunning = $service.Status -eq 'Running'
        if (-not $vmmsRunning) {
            $issues.Add([ordered]@{ code = 'service_not_running'; message = 'Hyper-V Virtual Machine Management is not running' })
        }
    } catch {
        $issues.Add([ordered]@{ code = 'service_missing'; message = $_.Exception.Message })
    }

    $hypervisorPresent = $false
    try {
        $computer = Get-CimInstance -ClassName Win32_ComputerSystem -ErrorAction Stop
        $hypervisorPresent = [bool]$computer.HypervisorPresent
        if (-not $hypervisorPresent) {
            $issues.Add([ordered]@{ code = 'hypervisor_absent'; message = 'Windows does not report an active hypervisor' })
        }
    } catch {
        $issues.Add([ordered]@{ code = 'hypervisor_probe_failed'; message = $_.Exception.Message })
    }

    $moduleVersion = $null
    $missing = New-Object System.Collections.Generic.List[string]
    $networkMissing = New-Object System.Collections.Generic.List[string]
    $managementAccess = $false
    try {
        $module = Get-Module -ListAvailable -Name Hyper-V |
            Sort-Object Version -Descending |
            Select-Object -First 1
        if ($null -eq $module) {
            throw 'Hyper-V PowerShell module was not found'
        }
        Import-Module -Name $module.Path -PassThru -ErrorAction Stop | Out-Null
        $moduleVersion = [string]$module.Version
        $required = @(
            'Get-VMHost','Get-VM','New-VM','Set-VM','Set-VMProcessor','Set-VMMemory',
            'Set-VMFirmware','Start-VM','Stop-VM','Remove-VM',
            'Get-VHD','New-VHD','Mount-VHD','Dismount-VHD','Add-VMHardDiskDrive',
            'Remove-VMHardDiskDrive','Get-VMHardDiskDrive','Get-VMNetworkAdapter','Get-VMIntegrationService',
            'Add-VMNetworkAdapter','Remove-VMNetworkAdapter','Get-VMSwitch',
            'Get-VMSnapshot','Remove-VMSnapshot','Get-Disk','Initialize-Disk','Get-Partition',
            'New-Partition','Add-PartitionAccessPath','Remove-PartitionAccessPath',
            'Format-Volume','Get-Volume'
        )
        foreach ($name in $required) {
            if ($null -eq (Get-Command -Name $name -ErrorAction SilentlyContinue)) {
                $missing.Add($name)
            }
        }
        if ($missing.Count -gt 0) {
            $issues.Add([ordered]@{ code = 'cmdlets_missing'; message = ('Missing Hyper-V cmdlets: ' + ($missing -join ', ')) })
        }
        $networkRequired = @(
            'Get-NetAdapter','Get-NetAdapterBinding','Get-NetIPAddress','Get-NetNat','Get-NetNatStaticMapping','Get-NetRoute','Get-NetTCPConnection',
            'Get-NetFirewallRule','New-NetFirewallRule','Remove-NetFirewallRule','Get-NetFirewallAddressFilter',
            'Get-NetFirewallPortFilter','Get-NetFirewallInterfaceFilter',
            'Get-VMNetworkAdapterExtendedAcl','Add-VMNetworkAdapterExtendedAcl','Remove-VMNetworkAdapterExtendedAcl',
            'Get-NetEventSession','New-NetEventSession','Add-NetEventPacketCaptureProvider','Get-NetEventPacketCaptureProvider',
            'Start-NetEventSession','Stop-NetEventSession','Remove-NetEventSession'
        )
        foreach ($name in $networkRequired) {
            if ($null -eq (Get-Command -Name $name -ErrorAction SilentlyContinue)) {
                $networkMissing.Add($name)
            }
        }
        try {
            $null = Get-VMHost -ErrorAction Stop
            $managementAccess = $true
        } catch {
            $issues.Add([ordered]@{ code = 'management_access_denied'; message = $_.Exception.Message })
        }
    } catch {
        $issues.Add([ordered]@{ code = 'module_unavailable'; message = $_.Exception.Message })
    }

    $available = $featureEnabled -and $vmmsRunning -and $hypervisorPresent -and
        $managementAccess -and ($missing.Count -eq 0)
    $data = [ordered]@{
        available = [bool]$available
        platform_supported = $true
        hypervisor_present = [bool]$hypervisorPresent
        feature_enabled = [bool]$featureEnabled
        vmms_running = [bool]$vmmsRunning
        management_access = [bool]$managementAccess
        module_version = $moduleVersion
        missing_cmdlets = @($missing.ToArray())
        network_missing_cmdlets = @($networkMissing.ToArray())
        issues = @($issues.ToArray())
    }
    [ordered]@{ schema_version = 1; ok = $true; data = $data } |
        ConvertTo-Json -Compress -Depth 8
} catch {
    [ordered]@{
        schema_version = 1
        ok = $false
        error = [ordered]@{
            code = 'capability_probe_failed'
            message = ('{0} at line {1}: {2}' -f $_.Exception.Message, $_.InvocationInfo.ScriptLineNumber, $_.InvocationInfo.PositionMessage)
        }
    } | ConvertTo-Json -Compress -Depth 5
}
"#;

/// Reports the facts and the digest of a base image.
pub const INSPECT_BASE_IMAGE_SCRIPT: &'static str = r#"
$ErrorActionPreference = 'Stop'
$ProgressPreference = 'SilentlyContinue'
[Console]::InputEncoding = [System.Text.UTF8Encoding]::new($false)
[Console]::OutputEncoding = [System.Text.UTF8Encoding]::new($false)
try {
    $request = [Console]::In.ReadToEnd() | ConvertFrom-Json
    $module = Get-Module -ListAvailable -Name Hyper-V |
        Sort-Object Version -Descending |
        Select-Object -First 1
    if ($null -eq $module) { throw 'Hyper-V PowerShell module was not found' }
    Import-Module -Name $module.Path -ErrorAction Stop
    $path = [string]$request.path
    [Console]::Error.WriteLine(('[hyperv/base_image debug] inspecting path: ' + $path))
    [Console]::Error.WriteLine('[hyperv/base_image debug] Test-VHD starting')
    $valid = Test-VHD -Path $path -ErrorAction Stop
    [Console]::Error.WriteLine('[hyperv/base_image debug] Get-VHD starting')
    $vhd = Get-VHD -Path $path -ErrorAction Stop
    [Console]::Error.WriteLine(('[hyperv/base_image debug] Hyper-V parent path: ' + [string]$vhd.ParentPath))
    [Console]::Error.WriteLine('[hyperv/base_image debug] Get-FileHash starting')
    $hash = Get-FileHash -LiteralPath $path -Algorithm SHA256 -ErrorAction Stop
    $data = [ordered]@{
        valid = [bool]$valid
        path = [string]$vhd.Path
        vhd_format = [string]$vhd.VhdFormat
        vhd_type = [string]$vhd.VhdType
        attached = [bool]$vhd.Attached
        parent_path = if ([string]::IsNullOrWhiteSpace([string]$vhd.ParentPath)) { $null } else { [string]$vhd.ParentPath }
        size_bytes = [uint64]$vhd.Size
        logical_sector_size = [uint32]$vhd.LogicalSectorSize
        disk_identifier = if ($null -eq $vhd.DiskIdentifier) { $null } else { [string]$vhd.DiskIdentifier }
        sha256 = ([string]$hash.Hash).ToLowerInvariant()
    }
    [ordered]@{ schema_version = 1; ok = $true; data = $data } |
        ConvertTo-Json -Compress -Depth 6
} catch {
    [ordered]@{
        schema_version = 1
        ok = $false
        error = [ordered]@{ code = 'base_image_inspection_failed'; message = $_.Exception.Message }
    } | ConvertTo-Json -Compress -Depth 5
}
"#;

/// Creates the differencing disk of a run over its base image.
pub const CREATE_DIFFERENCING_DISK_SCRIPT: &'static str = r#"
$ErrorActionPreference = 'Stop'
$ProgressPreference = 'SilentlyContinue'
[Console]::InputEncoding = [System.Text.UTF8Encoding]::new($false)
[Console]::OutputEncoding = [System.Text.UTF8Encoding]::new($false)
try {
    $request = [Console]::In.ReadToEnd() | ConvertFrom-Json
$module = Get-Module -ListAvailable -Name Hyper-V |
        Sort-Object Version -Descending |
        Select-Object -First 1
    if ($null -eq $module) { throw 'Hyper-V PowerShell module was not found' }
    Import-Module -Name $module.Path -ErrorAction Stop
    $path = [string]$request.path
    $parent = [string]$request.parent_path
    if ([System.IO.File]::Exists($path) -or [System.IO.Directory]::Exists($path)) {
        throw 'The differencing-disk destination already exists'
    }
    $null = New-VHD -Path $path -ParentPath $parent -Differencing -ErrorAction Stop
    $vhd = Get-VHD -Path $path -ErrorAction Stop
    $data = [ordered]@{
        path = [string]$vhd.Path
        vhd_format = [string]$vhd.VhdFormat
        vhd_type = [string]$vhd.VhdType
        attached = [bool]$vhd.Attached
        parent_path = if ([string]::IsNullOrWhiteSpace([string]$vhd.ParentPath)) { $null } else { [string]$vhd.ParentPath }
        size_bytes = [uint64]$vhd.Size
        logical_sector_size = [uint32]$vhd.LogicalSectorSize
        disk_identifier = if ($null -eq $vhd.DiskIdentifier) { $null } else { [string]$vhd.DiskIdentifier }
    }
    [ordered]@{ schema_version = 1; ok = $true; data = $data } |
        ConvertTo-Json -Compress -Depth 6
} catch {
    [ordered]@{
        schema_version = 1
        ok = $false
        error = [ordered]@{ code = 'differencing_disk_create_failed'; message = $_.Exception.Message }
    } | ConvertTo-Json -Compress -Depth 5
}
"#;

/// Reports the facts of a virtual disk.
pub const INSPECT_VHD_SCRIPT: &'static str = r#"
$ErrorActionPreference = 'Stop'
$ProgressPreference = 'SilentlyContinue'
[Console]::InputEncoding = [System.Text.UTF8Encoding]::new($false)
[Console]::OutputEncoding = [System.Text.UTF8Encoding]::new($false)
try {
    $request = [Console]::In.ReadToEnd() | ConvertFrom-Json
$module = Get-Module -ListAvailable -Name Hyper-V |
        Sort-Object Version -Descending |
        Select-Object -First 1
    if ($null -eq $module) { throw 'Hyper-V PowerShell module was not found' }
    Import-Module -Name $module.Path -ErrorAction Stop
    $vhd = Get-VHD -Path ([string]$request.path) -ErrorAction Stop
    $data = [ordered]@{
        path = [string]$vhd.Path
        vhd_format = [string]$vhd.VhdFormat
        vhd_type = [string]$vhd.VhdType
        attached = [bool]$vhd.Attached
        parent_path = if ([string]::IsNullOrWhiteSpace([string]$vhd.ParentPath)) { $null } else { [string]$vhd.ParentPath }
        size_bytes = [uint64]$vhd.Size
        logical_sector_size = [uint32]$vhd.LogicalSectorSize
        disk_identifier = if ($null -eq $vhd.DiskIdentifier) { $null } else { [string]$vhd.DiskIdentifier }
    }
    [ordered]@{ schema_version = 1; ok = $true; data = $data } |
        ConvertTo-Json -Compress -Depth 6
} catch {
    [ordered]@{
        schema_version = 1
        ok = $false
        error = [ordered]@{ code = 'vhd_inspection_failed'; message = $_.Exception.Message }
    } | ConvertTo-Json -Compress -Depth 5
}
"#;

/// Creates, formats and mounts the data disk of a run.
pub const CREATE_AND_MOUNT_DATA_DISK_SCRIPT: &'static str = r#"
$ErrorActionPreference = 'Stop'
$ProgressPreference = 'SilentlyContinue'
[Console]::InputEncoding = [System.Text.UTF8Encoding]::new($false)
[Console]::OutputEncoding = [System.Text.UTF8Encoding]::new($false)
try {
    $request = [Console]::In.ReadToEnd() | ConvertFrom-Json
$module = Get-Module -ListAvailable -Name Hyper-V |
        Sort-Object Version -Descending |
        Select-Object -First 1
    if ($null -eq $module) { throw 'Hyper-V PowerShell module was not found' }
    Import-Module -Name $module.Path -ErrorAction Stop
    $path = [string]$request.path
    $mountPath = [string]$request.mount_path
    if ([System.IO.File]::Exists($path) -or [System.IO.Directory]::Exists($path)) {
        throw 'The run-data disk destination already exists'
    }
    if (-not [System.IO.Directory]::Exists($mountPath)) {
        throw 'The protected run-data mount directory does not exist'
    }
    $null = New-VHD -Path $path -Dynamic -SizeBytes ([uint64]$request.size_bytes) -ErrorAction Stop
    $vhd = Mount-VHD -Path $path -NoDriveLetter -Passthru -ErrorAction Stop
    $disk = $vhd | Get-Disk -ErrorAction Stop
    if ([string]$disk.PartitionStyle -ne 'RAW') {
        throw 'A newly-created run-data disk was unexpectedly initialized'
    }
    $disk = Initialize-Disk -Number $disk.Number -PartitionStyle GPT -PassThru -ErrorAction Stop
    $partition = New-Partition -DiskNumber $disk.Number -UseMaximumSize -ErrorAction Stop
    $null = Format-Volume -Partition $partition -FileSystem NTFS -NewFileSystemLabel ([string]$request.label) -Confirm:$false -ErrorAction Stop
    $accessPath = $mountPath.TrimEnd('\') + '\'
    $null = Add-PartitionAccessPath -DiskNumber $disk.Number -PartitionNumber $partition.PartitionNumber -AccessPath $accessPath -ErrorAction Stop
    $data = [ordered]@{
        path = $path
        mount_path = $accessPath
        disk_number = [uint32]$disk.Number
        partition_number = [uint32]$partition.PartitionNumber
        disk_unique_id = [string]$disk.UniqueId
        vhd_identifier = if ($null -eq $vhd.DiskIdentifier) { $null } else { [string]$vhd.DiskIdentifier }
        label = [string]$request.label
        attached = $true
    }
    [ordered]@{ schema_version = 1; ok = $true; data = $data } |
        ConvertTo-Json -Compress -Depth 6
} catch {
    [ordered]@{
        schema_version = 1
        ok = $false
        error = [ordered]@{ code = 'data_disk_create_failed'; message = $_.Exception.Message }
    } | ConvertTo-Json -Compress -Depth 5
}
"#;

/// Mounts the recorded data disk of a run again.
pub const MOUNT_DATA_DISK_SCRIPT: &'static str = r#"
$ErrorActionPreference = 'Stop'
$ProgressPreference = 'SilentlyContinue'
[Console]::InputEncoding = [System.Text.UTF8Encoding]::new($false)
[Console]::OutputEncoding = [System.Text.UTF8Encoding]::new($false)
try {
    $request = [Console]::In.ReadToEnd() | ConvertFrom-Json
$module = Get-Module -ListAvailable -Name Hyper-V |
        Sort-Object Version -Descending |
        Select-Object -First 1
    if ($null -eq $module) { throw 'Hyper-V PowerShell module was not found' }
    Import-Module -Name $module.Path -ErrorAction Stop
    $path = [string]$request.path
    $mountPath = ([string]$request.mount_path).TrimEnd('\') + '\'
    $existingVhd = Get-VHD -Path $path -ErrorAction Stop
    if ([string]$existingVhd.DiskIdentifier -ne [string]$request.expected_vhd_identifier) {
        throw 'The run-data VHD identity does not match the recorded run disk'
    }
    $vhd = Mount-VHD -Path $path -NoDriveLetter -Passthru -ErrorAction Stop
    $disk = $vhd | Get-Disk -ErrorAction Stop
    $partition = Get-Partition -DiskNumber $disk.Number -ErrorAction Stop |
        Where-Object { $_.Type -ne 'Reserved' } |
        Select-Object -First 1
    if ($null -eq $partition) { throw 'The run-data disk has no data partition' }
    $volume = $partition | Get-Volume -ErrorAction Stop
    if ([string]$volume.FileSystemLabel -ne [string]$request.label) {
        throw 'The run-data disk label does not match this run'
    }
    if ([string]$disk.UniqueId -ne [string]$request.expected_disk_unique_id) {
        Dismount-VHD -Path $path -ErrorAction SilentlyContinue
        throw 'The run-data disk unique identity does not match this run'
    }
    $null = Add-PartitionAccessPath -DiskNumber $disk.Number -PartitionNumber $partition.PartitionNumber -AccessPath $mountPath -ErrorAction Stop
    $data = [ordered]@{
        path = $path
        mount_path = $mountPath
        disk_number = [uint32]$disk.Number
        partition_number = [uint32]$partition.PartitionNumber
        disk_unique_id = [string]$disk.UniqueId
        vhd_identifier = if ($null -eq $vhd.DiskIdentifier) { $null } else { [string]$vhd.DiskIdentifier }
        label = [string]$volume.FileSystemLabel
        attached = $true
    }
    [ordered]@{ schema_version = 1; ok = $true; data = $data } |
        ConvertTo-Json -Compress -Depth 6
} catch {
    [ordered]@{
        schema_version = 1
        ok = $false
        error = [ordered]@{ code = 'data_disk_mount_failed'; message = $_.Exception.Message }
    } | ConvertTo-Json -Compress -Depth 5
}
"#;

/// Dismounts the recorded data disk of a run.
pub const DISMOUNT_DATA_DISK_SCRIPT: &'static str = r#"
$ErrorActionPreference = 'Stop'
$ProgressPreference = 'SilentlyContinue'
[Console]::InputEncoding = [System.Text.UTF8Encoding]::new($false)
[Console]::OutputEncoding = [System.Text.UTF8Encoding]::new($false)
try {
    $request = [Console]::In.ReadToEnd() | ConvertFrom-Json
$module = Get-Module -ListAvailable -Name Hyper-V |
        Sort-Object Version -Descending |
        Select-Object -First 1
    if ($null -eq $module) { throw 'Hyper-V PowerShell module was not found' }
    Import-Module -Name $module.Path -ErrorAction Stop
    $path = [string]$request.path
    $mountPath = ([string]$request.mount_path).TrimEnd('\') + '\'
    $vhd = Get-VHD -Path $path -ErrorAction SilentlyContinue
    if ($null -ne $vhd -and [bool]$vhd.Attached) {
        if ([string]$vhd.DiskIdentifier -ne [string]$request.expected_vhd_identifier) {
            throw 'The run-data VHD identity does not match the recorded run disk'
        }
        try {
            $disk = $vhd | Get-Disk -ErrorAction Stop
            if ([string]$disk.UniqueId -ne [string]$request.expected_disk_unique_id) {
                throw 'The run-data disk unique identity does not match this run'
            }
            $partitions = Get-Partition -DiskNumber $disk.Number -ErrorAction Stop
            foreach ($partition in $partitions) {
                $paths = @($partition.AccessPaths)
                if ($paths -contains $mountPath) {
                    Remove-PartitionAccessPath -DiskNumber $disk.Number -PartitionNumber $partition.PartitionNumber -AccessPath $mountPath -ErrorAction Stop
                }
            }
        } finally {
            Dismount-VHD -Path $path -ErrorAction Stop
        }
    }
    $data = [ordered]@{ dismounted = $true }
    [ordered]@{ schema_version = 1; ok = $true; data = $data } |
        ConvertTo-Json -Compress -Depth 4
} catch {
    [ordered]@{
        schema_version = 1
        ok = $false
        error = [ordered]@{ code = 'data_disk_dismount_failed'; message = $_.Exception.Message }
    } | ConvertTo-Json -Compress -Depth 5
}
"#;

/// Creates the disposable virtual machine of a run.
pub const CREATE_VM_SCRIPT: &'static str = r#"
$ErrorActionPreference = 'Stop'
$ProgressPreference = 'SilentlyContinue'
[Console]::InputEncoding = [System.Text.UTF8Encoding]::new($false)
[Console]::OutputEncoding = [System.Text.UTF8Encoding]::new($false)
$vm = $null
$created = $false
try {
    $request = [Console]::In.ReadToEnd() | ConvertFrom-Json
    $module = Get-Module -ListAvailable -Name Hyper-V |
        Sort-Object Version -Descending |
        Select-Object -First 1
    if ($null -eq $module) { throw 'Hyper-V PowerShell module was not found' }
    Import-Module -Name $module.Path -ErrorAction Stop
    if ($null -ne (Get-VM -Name ([string]$request.name) -ErrorAction SilentlyContinue)) {
        throw 'A VM with the disposable run name already exists'
    }
    $vm = New-VM -Name ([string]$request.name) -Generation 2 -MemoryStartupBytes ([uint64]$request.startup_memory_bytes) -NoVHD -Path ([string]$request.configuration_path) -ErrorAction Stop
    $created = $true
    $expectedConfigurationRoot = [System.IO.Path]::GetFullPath([string]$request.configuration_path).TrimEnd('\') + '\'
    $actualConfiguration = [System.IO.Path]::GetFullPath([string]$vm.ConfigurationLocation)
    if (-not $actualConfiguration.StartsWith($expectedConfigurationRoot, [System.StringComparison]::OrdinalIgnoreCase)) {
        throw 'Hyper-V created the VM outside the requested run-owned configuration directory'
    }
    Set-VMProcessor -VM $vm -Count ([uint16]$request.processor_count) -EnableHostResourceProtection $true -ExposeVirtualizationExtensions $false -CompatibilityForMigrationEnabled $false -CompatibilityForOlderOperatingSystemsEnabled $false -ErrorAction Stop
    Set-VMMemory -VM $vm -DynamicMemoryEnabled $false -StartupBytes ([uint64]$request.startup_memory_bytes) -ErrorAction Stop
    Set-VM -VM $vm -AutomaticCheckpointsEnabled $false -CheckpointType Disabled -AutomaticStartAction Nothing -AutomaticStopAction TurnOff -ErrorAction Stop
    Set-VMFirmware -VM $vm -EnableSecureBoot On -SecureBootTemplate ([string]$request.secure_boot_template) -ErrorAction Stop
    Get-VMDvdDrive -VM $vm -ErrorAction Stop | Remove-VMDvdDrive -ErrorAction Stop
    $integrationServices = @(Get-VMIntegrationService -VM $vm -ErrorAction Stop)
    foreach ($service in $integrationServices) {
        if ([string]$service.Name -ne 'Heartbeat' -and [bool]$service.Enabled) {
            Disable-VMIntegrationService -VMIntegrationService $service -ErrorAction Stop
        }
    }
    $processor = Get-VMProcessor -VM $vm -ErrorAction Stop
    if (-not [bool]$processor.EnableHostResourceProtection -or [bool]$processor.ExposeVirtualizationExtensions) {
        throw 'Disposable VM processor isolation settings were not applied'
    }
    if (@(Get-VMDvdDrive -VM $vm -ErrorAction Stop).Count -ne 0) {
        throw 'Disposable VM retained an unnecessary virtual DVD drive'
    }
    $enabledIntegrationServices = @(Get-VMIntegrationService -VM $vm -ErrorAction Stop | Where-Object { [bool]$_.Enabled })
    if ($enabledIntegrationServices.Count -ne 1 -or [string]$enabledIntegrationServices[0].Name -ne 'Heartbeat') {
        throw 'Disposable VM retained an unnecessary host integration channel'
    }
    $snapshots = @(Get-VMSnapshot -VM $vm -ErrorAction Stop)
    if ($snapshots.Count -ne 0) { throw 'A newly-created disposable VM has unexpected checkpoints' }
    $data = [ordered]@{
        id = [string]$vm.Id
        name = [string]$vm.Name
        generation = [uint16]$vm.Generation
        state = [string]$vm.State
        configuration_path = $actualConfiguration
    }
    [ordered]@{ schema_version = 1; ok = $true; data = $data } |
        ConvertTo-Json -Compress -Depth 5
} catch {
    $message = $_.Exception.Message
    if ($created -and $null -ne $vm) {
        try {
            if ([string]$vm.State -ne 'Off') {
                Stop-VM -VM $vm -TurnOff -Force -ErrorAction Stop
            }
            Remove-VM -VM $vm -Force -ErrorAction Stop
        } catch {
            $message = $message + '; exact partial-VM rollback failed: ' + $_.Exception.Message
        }
    }
    [ordered]@{
        schema_version = 1
        ok = $false
        error = [ordered]@{ code = 'vm_create_failed'; message = $message }
    } | ConvertTo-Json -Compress -Depth 5
}
"#;

/// Attaches a disk of the run to its virtual machine.
pub const ATTACH_VM_DISK_SCRIPT: &'static str = r#"
$ErrorActionPreference = 'Stop'
$ProgressPreference = 'SilentlyContinue'
[Console]::InputEncoding = [System.Text.UTF8Encoding]::new($false)
[Console]::OutputEncoding = [System.Text.UTF8Encoding]::new($false)
try {
    $request = [Console]::In.ReadToEnd() | ConvertFrom-Json
$module = Get-Module -ListAvailable -Name Hyper-V |
        Sort-Object Version -Descending |
        Select-Object -First 1
    if ($null -eq $module) { throw 'Hyper-V PowerShell module was not found' }
    Import-Module -Name $module.Path -ErrorAction Stop
    $vm = Get-VM -Id ([guid][string]$request.vm_id) -ErrorAction Stop
    if ([string]$vm.State -ne 'Off') { throw 'Disks may be attached only while the disposable VM is off' }
    $occupied = @(Get-VMHardDiskDrive -VM $vm -ControllerType SCSI -ControllerNumber ([uint32]$request.controller_number) -ControllerLocation ([uint32]$request.controller_location) -ErrorAction SilentlyContinue)
    if ($occupied.Count -ne 0) { throw 'The requested SCSI controller location is already occupied' }
    Add-VMHardDiskDrive -VM $vm -ControllerType SCSI -ControllerNumber ([uint32]$request.controller_number) -ControllerLocation ([uint32]$request.controller_location) -Path ([string]$request.path) -ErrorAction Stop
    $drive = Get-VMHardDiskDrive -VM $vm -ControllerType SCSI -ControllerNumber ([uint32]$request.controller_number) -ControllerLocation ([uint32]$request.controller_location) -ErrorAction Stop
    if ([string]$drive.Path -ne [string]$request.path) { throw 'Hyper-V attached a different disk path' }
    $data = [ordered]@{
        path = [string]$drive.Path
        controller_number = [uint32]$drive.ControllerNumber
        controller_location = [uint32]$drive.ControllerLocation
    }
    [ordered]@{ schema_version = 1; ok = $true; data = $data } |
        ConvertTo-Json -Compress -Depth 5
} catch {
    [ordered]@{
        schema_version = 1
        ok = $false
        error = [ordered]@{ code = 'vm_disk_attach_failed'; message = $_.Exception.Message }
    } | ConvertTo-Json -Compress -Depth 5
}
"#;

/// Starts the virtual machine of a run.
pub const START_VM_SCRIPT: &'static str = r#"
$ErrorActionPreference = 'Stop'
$ProgressPreference = 'SilentlyContinue'
[Console]::InputEncoding = [System.Text.UTF8Encoding]::new($false)
[Console]::OutputEncoding = [System.Text.UTF8Encoding]::new($false)
try {
    $request = [Console]::In.ReadToEnd() | ConvertFrom-Json
$module = Get-Module -ListAvailable -Name Hyper-V |
        Sort-Object Version -Descending |
        Select-Object -First 1
    if ($null -eq $module) { throw 'Hyper-V PowerShell module was not found' }
    Import-Module -Name $module.Path -ErrorAction Stop
    $vm = Get-VM -Id ([guid][string]$request.vm_id) -ErrorAction Stop
    if ([string]$vm.State -ne 'Off') { throw 'Disposable VM must be off before start' }
    if ([bool]$vm.AutomaticCheckpointsEnabled -or [string]$vm.CheckpointType -ne 'Disabled') {
        throw 'Disposable VM checkpoint policy is not disabled'
    }
    $snapshots = @(Get-VMSnapshot -VM $vm -ErrorAction Stop)
    if ($snapshots.Count -ne 0) {
        throw 'Disposable VM has a checkpoint before start'
    }
    $vm = Start-VM -VM $vm -PassThru -ErrorAction Stop
    $snapshots = @(Get-VMSnapshot -VM $vm -ErrorAction Stop)
    $data = [ordered]@{
        exists = $true
        id = [string]$vm.Id
        name = [string]$vm.Name
        state = [string]$vm.State
        snapshot_count = [uint32]$snapshots.Count
    }
    [ordered]@{ schema_version = 1; ok = $true; data = $data } |
        ConvertTo-Json -Compress -Depth 5
} catch {
    [ordered]@{
        schema_version = 1
        ok = $false
        error = [ordered]@{ code = 'vm_start_failed'; message = $_.Exception.Message }
    } | ConvertTo-Json -Compress -Depth 5
}
"#;

/// Reports the state of the virtual machine of a run.
pub const QUERY_VM_SCRIPT: &'static str = r#"
$ErrorActionPreference = 'Stop'
$ProgressPreference = 'SilentlyContinue'
[Console]::InputEncoding = [System.Text.UTF8Encoding]::new($false)
[Console]::OutputEncoding = [System.Text.UTF8Encoding]::new($false)
try {
    $request = [Console]::In.ReadToEnd() | ConvertFrom-Json
$module = Get-Module -ListAvailable -Name Hyper-V |
        Sort-Object Version -Descending |
        Select-Object -First 1
    if ($null -eq $module) { throw 'Hyper-V PowerShell module was not found' }
    Import-Module -Name $module.Path -ErrorAction Stop
    $vm = Get-VM -Id ([guid][string]$request.vm_id) -ErrorAction SilentlyContinue
    if ($null -eq $vm) {
        $data = [ordered]@{
            exists = $false
            id = [string]$request.vm_id
            name = $null
            state = 'Missing'
            snapshot_count = 0
            cpu_usage_percent = 0
            memory_assigned_bytes = 0
            uptime_ms = 0
            health = 'Missing'
            heartbeat_enabled = $false
            heartbeat_primary_status = 'Missing'
            heartbeat_secondary_status = 'Missing'
        }
    } else {
        $snapshots = @(Get-VMSnapshot -VM $vm -ErrorAction Stop)
        $heartbeat = Get-VMIntegrationService -VM $vm -Name 'Heartbeat' -ErrorAction SilentlyContinue
        $data = [ordered]@{
            exists = $true
            id = [string]$vm.Id
            name = [string]$vm.Name
            state = [string]$vm.State
            snapshot_count = [uint32]$snapshots.Count
            cpu_usage_percent = [uint16]$vm.CPUUsage
            memory_assigned_bytes = [uint64]$vm.MemoryAssigned
            uptime_ms = [uint64]$vm.Uptime.TotalMilliseconds
            health = [string]$vm.Status
            heartbeat_enabled = if ($null -eq $heartbeat) { $false } else { [bool]$heartbeat.Enabled }
            heartbeat_primary_status = if ($null -eq $heartbeat) { 'Missing' } else { [string]$heartbeat.PrimaryStatusDescription }
            heartbeat_secondary_status = if ($null -eq $heartbeat) { 'Missing' } else { [string]$heartbeat.SecondaryStatusDescription }
        }
    }
    [ordered]@{ schema_version = 1; ok = $true; data = $data } |
        ConvertTo-Json -Compress -Depth 5
} catch {
    [ordered]@{
        schema_version = 1
        ok = $false
        error = [ordered]@{ code = 'vm_query_failed'; message = $_.Exception.Message }
    } | ConvertTo-Json -Compress -Depth 5
}
"#;

/// Stops the virtual machine of a run.
pub const STOP_VM_SCRIPT: &'static str = r#"
$ErrorActionPreference = 'Stop'
$ProgressPreference = 'SilentlyContinue'
[Console]::InputEncoding = [System.Text.UTF8Encoding]::new($false)
[Console]::OutputEncoding = [System.Text.UTF8Encoding]::new($false)
try {
    $request = [Console]::In.ReadToEnd() | ConvertFrom-Json
$module = Get-Module -ListAvailable -Name Hyper-V |
        Sort-Object Version -Descending |
        Select-Object -First 1
    if ($null -eq $module) { throw 'Hyper-V PowerShell module was not found' }
    Import-Module -Name $module.Path -ErrorAction Stop
    $vm = Get-VM -Id ([guid][string]$request.vm_id) -ErrorAction SilentlyContinue
    if ($null -ne $vm) {
        if ([string]$vm.Name -ne [string]$request.expected_name -or [uint16]$vm.Generation -ne 2) {
            throw 'VM identifier resolves to a different VM identity'
        }
        $expectedRoot = [System.IO.Path]::GetFullPath([string]$request.expected_configuration_root).TrimEnd('\')
        $configuration = [System.IO.Path]::GetFullPath([string]$vm.ConfigurationLocation)
        if (-not $configuration.Equals($expectedRoot, [System.StringComparison]::OrdinalIgnoreCase) -and
            -not $configuration.StartsWith($expectedRoot + '\', [System.StringComparison]::OrdinalIgnoreCase)) {
            throw 'VM identifier resolves outside the recorded run directory'
        }
    }
    if ($null -ne $vm -and [string]$vm.State -ne 'Off') {
        if ([bool]$request.force) {
            Stop-VM -VM $vm -TurnOff -Force -ErrorAction Stop
        } else {
            Stop-VM -VM $vm -ErrorAction Stop
        }
    }
    $vm = Get-VM -Id ([guid][string]$request.vm_id) -ErrorAction SilentlyContinue
    $state = if ($null -eq $vm) { 'Missing' } else { [string]$vm.State }
    $data = [ordered]@{ stopped = ($state -eq 'Off' -or $state -eq 'Missing'); state = $state }
    [ordered]@{ schema_version = 1; ok = $true; data = $data } |
        ConvertTo-Json -Compress -Depth 4
} catch {
    [ordered]@{
        schema_version = 1
        ok = $false
        error = [ordered]@{ code = 'vm_stop_failed'; message = $_.Exception.Message }
    } | ConvertTo-Json -Compress -Depth 5
}
"#;

/// Detaches a disk of the run from its virtual machine.
pub const DETACH_VM_DISK_SCRIPT: &'static str = r#"
$ErrorActionPreference = 'Stop'
$ProgressPreference = 'SilentlyContinue'
[Console]::InputEncoding = [System.Text.UTF8Encoding]::new($false)
[Console]::OutputEncoding = [System.Text.UTF8Encoding]::new($false)
try {
    $request = [Console]::In.ReadToEnd() | ConvertFrom-Json
$module = Get-Module -ListAvailable -Name Hyper-V |
        Sort-Object Version -Descending |
        Select-Object -First 1
    if ($null -eq $module) { throw 'Hyper-V PowerShell module was not found' }
    Import-Module -Name $module.Path -ErrorAction Stop
    $vm = Get-VM -Id ([guid][string]$request.vm_id) -ErrorAction SilentlyContinue
    $removed = 0
    if ($null -ne $vm) {
        if ([string]$vm.Name -ne [string]$request.expected_name -or [uint16]$vm.Generation -ne 2) {
            throw 'VM identifier resolves to a different VM identity'
        }
        $expectedRoot = [System.IO.Path]::GetFullPath([string]$request.expected_configuration_root).TrimEnd('\')
        $configuration = [System.IO.Path]::GetFullPath([string]$vm.ConfigurationLocation)
        if (-not $configuration.Equals($expectedRoot, [System.StringComparison]::OrdinalIgnoreCase) -and
            -not $configuration.StartsWith($expectedRoot + '\', [System.StringComparison]::OrdinalIgnoreCase)) {
            throw 'VM identifier resolves outside the recorded run directory'
        }
        if ([string]$vm.State -ne 'Off') { throw 'VM disks may be detached only while the VM is off' }
        $drives = @(Get-VMHardDiskDrive -VM $vm -ErrorAction Stop | Where-Object { [string]$_.Path -eq [string]$request.path })
        foreach ($drive in $drives) {
            Remove-VMHardDiskDrive -VMHardDiskDrive $drive -ErrorAction Stop
            $removed++
        }
        if (@(Get-VMHardDiskDrive -VM $vm -ErrorAction Stop | Where-Object { [string]$_.Path -eq [string]$request.path }).Count -ne 0) {
            throw 'VM disk remained attached after removal'
        }
    }
    $data = [ordered]@{ detached = $true; removed = [uint32]$removed }
    [ordered]@{ schema_version = 1; ok = $true; data = $data } |
        ConvertTo-Json -Compress -Depth 4
} catch {
    [ordered]@{
        schema_version = 1
        ok = $false
        error = [ordered]@{ code = 'vm_disk_detach_failed'; message = $_.Exception.Message }
    } | ConvertTo-Json -Compress -Depth 5
}
"#;

/// Removes the virtual machine of a run.
pub const REMOVE_VM_SCRIPT: &'static str = r#"
$ErrorActionPreference = 'Stop'
$ProgressPreference = 'SilentlyContinue'
[Console]::InputEncoding = [System.Text.UTF8Encoding]::new($false)
[Console]::OutputEncoding = [System.Text.UTF8Encoding]::new($false)
try {
    $request = [Console]::In.ReadToEnd() | ConvertFrom-Json
$module = Get-Module -ListAvailable -Name Hyper-V |
        Sort-Object Version -Descending |
        Select-Object -First 1
    if ($null -eq $module) { throw 'Hyper-V PowerShell module was not found' }
    Import-Module -Name $module.Path -ErrorAction Stop
    $vm = Get-VM -Id ([guid][string]$request.vm_id) -ErrorAction SilentlyContinue
    if ($null -ne $vm) {
        if ([string]$vm.Name -ne [string]$request.expected_name -or [uint16]$vm.Generation -ne 2) {
            throw 'VM identifier resolves to a different VM identity'
        }
        $expectedRoot = [System.IO.Path]::GetFullPath([string]$request.expected_configuration_root).TrimEnd('\')
        $configuration = [System.IO.Path]::GetFullPath([string]$vm.ConfigurationLocation)
        if (-not $configuration.Equals($expectedRoot, [System.StringComparison]::OrdinalIgnoreCase) -and
            -not $configuration.StartsWith($expectedRoot + '\', [System.StringComparison]::OrdinalIgnoreCase)) {
            throw 'VM identifier resolves outside the recorded run directory'
        }
        if ([string]$vm.State -ne 'Off') {
            Stop-VM -VM $vm -TurnOff -Force -ErrorAction Stop
        }
        $snapshots = @(Get-VMSnapshot -VM $vm -ErrorAction Stop)
        foreach ($snapshot in $snapshots) {
            Remove-VMSnapshot -VMSnapshot $snapshot -IncludeAllChildSnapshots -Confirm:$false -ErrorAction Stop
        }
        Remove-VM -VM $vm -Force -ErrorAction Stop
    }
    $remaining = Get-VM -Id ([guid][string]$request.vm_id) -ErrorAction SilentlyContinue
    if ($null -ne $remaining) { throw 'Disposable VM still exists after removal' }
    $data = [ordered]@{ removed = $true }
    [ordered]@{ schema_version = 1; ok = $true; data = $data } |
        ConvertTo-Json -Compress -Depth 4
} catch {
    [ordered]@{
        schema_version = 1
        ok = $false
        error = [ordered]@{ code = 'vm_remove_failed'; message = $_.Exception.Message }
    } | ConvertTo-Json -Compress -Depth 5
}
"#;

/// Removes a virtual machine that was planned but not recorded as created.
pub const REMOVE_PLANNED_VM_SCRIPT: &'static str = r#"
$ErrorActionPreference = 'Stop'
$ProgressPreference = 'SilentlyContinue'
[Console]::InputEncoding = [System.Text.UTF8Encoding]::new($false)
[Console]::OutputEncoding = [System.Text.UTF8Encoding]::new($false)
try {
    $request = [Console]::In.ReadToEnd() | ConvertFrom-Json
$module = Get-Module -ListAvailable -Name Hyper-V |
        Sort-Object Version -Descending |
        Select-Object -First 1
    if ($null -eq $module) { throw 'Hyper-V PowerShell module was not found' }
    Import-Module -Name $module.Path -ErrorAction Stop
    $name = [string]$request.expected_name
    $runRoot = [System.IO.Path]::GetFullPath([string]$request.run_root).TrimEnd('\') + '\'
    $vms = @(Get-VM -Name $name -ErrorAction SilentlyContinue)
    if ($vms.Count -gt 1) { throw 'Disposable VM name unexpectedly resolved to multiple VMs' }
    foreach ($vm in $vms) {
        if ([string]$vm.Name -ne $name -or [uint16]$vm.Generation -ne 2) {
            throw 'VM lookup returned a different VM identity'
        }
        $configuration = [System.IO.Path]::GetFullPath([string]$vm.ConfigurationLocation)
        if (-not $configuration.StartsWith($runRoot, [System.StringComparison]::OrdinalIgnoreCase)) {
            throw 'Refusing to remove a same-named VM outside the recorded run directory'
        }
        if ([string]$vm.State -ne 'Off') {
            Stop-VM -VM $vm -TurnOff -Force -ErrorAction Stop
        }
        $snapshots = @(Get-VMSnapshot -VM $vm -ErrorAction Stop)
        foreach ($snapshot in $snapshots) {
            Remove-VMSnapshot -VMSnapshot $snapshot -IncludeAllChildSnapshots -Confirm:$false -ErrorAction Stop
        }
        Remove-VM -VM $vm -Force -ErrorAction Stop
    }
    if ($null -ne (Get-VM -Name $name -ErrorAction SilentlyContinue)) {
        throw 'Planned disposable VM still exists after removal'
    }
    $data = [ordered]@{ removed = $true }
    [ordered]@{ schema_version = 1; ok = $true; data = $data } |
        ConvertTo-Json -Compress -Depth 4
} catch {
    [ordered]@{
        schema_version = 1
        ok = $false
        error = [ordered]@{ code = 'planned_vm_remove_failed'; message = $_.Exception.Message }
    } | ConvertTo-Json -Compress -Depth 5
}
"#;

/// Removes, or looks for, every network adapter of a virtual machine.
pub const CONFIGURE_DENY_ALL_SCRIPT: &'static str = r#"
$ErrorActionPreference = 'Stop'
$ProgressPreference = 'SilentlyContinue'
[Console]::InputEncoding = [System.Text.UTF8Encoding]::new($false)
[Console]::OutputEncoding = [System.Text.UTF8Encoding]::new($false)
try {
    $request = [Console]::In.ReadToEnd() | ConvertFrom-Json
    $module = Get-Module -ListAvailable -Name Hyper-V | Sort-Object Version -Descending | Select-Object -First 1
    if ($null -eq $module) { throw 'Hyper-V PowerShell module was not found' }
    Import-Module -Name $module.Path -ErrorAction Stop
    $vm = Get-VM -Id ([guid][string]$request.vm_id) -ErrorAction Stop
    if ([bool]$request.configure) {
        @(Get-VMNetworkAdapter -VM $vm -ErrorAction Stop) | ForEach-Object {
            Remove-VMNetworkAdapter -VMNetworkAdapter $_ -ErrorAction Stop
        }
    }
    $remaining = @(Get-VMNetworkAdapter -VM $vm -ErrorAction Stop)
    if ($remaining.Count -ne 0) { throw 'DenyAll requires zero virtual network adapters' }
    $data = [ordered]@{
        adapter_count = 0; switch_id = $null; switch_type = $null; host_adapter_id = $null
        host_ipv4 = $null; guest_ipv4 = $null; nat_enabled = $false; firewall_rule_ids = @()
        capture_active = $false; ipv6_disabled = $true; no_unexpected_routes = $true; warnings = @()
    }
    [ordered]@{ schema_version = 1; ok = $true; data = $data } | ConvertTo-Json -Compress -Depth 6
} catch {
    [ordered]@{ schema_version = 1; ok = $false; error = [ordered]@{
        code = 'network_deny_all_failed'; message = $_.Exception.Message
    }} | ConvertTo-Json -Compress -Depth 5
}
"#;

/// Provisions and attests the controlled network of a virtual machine.
pub const CONTROLLED_NETWORK_SCRIPT: &'static str = r#"
$ErrorActionPreference = 'Stop'
$ProgressPreference = 'SilentlyContinue'
[Console]::InputEncoding = [System.Text.UTF8Encoding]::new($false)
[Console]::OutputEncoding = [System.Text.UTF8Encoding]::new($false)
function Require-Command([string]$Name) {
    if ($null -eq (Get-Command -Name $Name -ErrorAction SilentlyContinue)) { throw "Required command is unavailable: $Name" }
}
try {
    $request = [Console]::In.ReadToEnd() | ConvertFrom-Json
    foreach ($name in @('Get-VM','Get-VMSwitch','Get-VMNetworkAdapter','Add-VMNetworkAdapter','Remove-VMNetworkAdapter',
        'Get-VMNetworkAdapterExtendedAcl','Add-VMNetworkAdapterExtendedAcl','Remove-VMNetworkAdapterExtendedAcl',
        'Get-NetAdapter','Get-NetAdapterBinding','Get-NetIPAddress','Get-NetNat','Get-NetNatStaticMapping','Get-NetRoute',
        'Get-NetFirewallRule','New-NetFirewallRule','Remove-NetFirewallRule','Get-NetFirewallAddressFilter',
        'Get-NetFirewallPortFilter','Get-NetFirewallInterfaceFilter')) { Require-Command $name }
    $module = Get-Module -ListAvailable -Name Hyper-V | Sort-Object Version -Descending | Select-Object -First 1
    if ($null -eq $module) { throw 'Hyper-V PowerShell module was not found' }
    Import-Module -Name $module.Path -ErrorAction Stop
    $vm = Get-VM -Id ([guid][string]$request.vm_id) -ErrorAction Stop
    $switch = Get-VMSwitch -Name ([string]$request.switch_name) -ErrorAction Stop
    if ([string]$switch.Id -ne [string]$request.switch_id -or [string]$switch.SwitchType -ne [string]$request.switch_type -or
        [string]$switch.SwitchType -eq 'External' -or [string]$switch.Name -eq 'Default Switch') {
        throw 'Switch identity or type does not match the controlled plan'
    }
    if ([bool]$request.configure_adapter) {
        @(Get-VMNetworkAdapter -VM $vm -ErrorAction Stop) | ForEach-Object {
            Remove-VMNetworkAdapter -VMNetworkAdapter $_ -ErrorAction Stop
        }
        Add-VMNetworkAdapter -VM $vm -Name 'Foxhole Controlled Adapter' -SwitchName ([string]$switch.Name) -ErrorAction Stop
    }
    $adapters = @(Get-VMNetworkAdapter -VM $vm -ErrorAction Stop)
    if ($adapters.Count -ne 1 -or [string]$adapters[0].SwitchId -ne [string]$switch.Id) {
        throw 'Exactly one VM adapter on the expected switch was not observed'
    }
    $hostAdapters = @(Get-NetAdapter -ErrorAction Stop | Where-Object {
        ([string]$_.InterfaceGuid).Trim('{}') -eq ([string]$request.host_adapter_id).Trim('{}')
    })
    if ($hostAdapters.Count -ne 1) { throw 'Configured host adapter identity was not observed exactly once' }
    $hostAdapter = $hostAdapters[0]
    if ([string]$hostAdapter.Name -ne ('vEthernet (' + [string]$switch.Name + ')') -or [string]$hostAdapter.Status -ne 'Up') {
        throw 'Configured host adapter is not the active host-side adapter for the controlled switch'
    }
    $allHostAddresses = @(Get-NetIPAddress -InterfaceIndex $hostAdapter.ifIndex -AddressFamily IPv4 -ErrorAction Stop)
    $hostAddresses = @($allHostAddresses | Where-Object {
        [string]$_.IPAddress -eq [string]$request.host_ipv4 -and [uint32]$_.PrefixLength -eq [uint32]$request.prefix_length
    })
    if ($hostAddresses.Count -ne 1 -or $allHostAddresses.Count -ne 1) { throw 'Host virtual adapter fixed address is missing, wrong, or accompanied by another IPv4 address' }
    $hostIpv6Binding = Get-NetAdapterBinding -InterfaceDescription ([string]$hostAdapter.InterfaceDescription) -ComponentID 'ms_tcpip6' -ErrorAction Stop
    if ([bool]$hostIpv6Binding.Enabled) { throw 'IPv6 is enabled on the controlled host adapter' }
    $matchingNat = @(Get-NetNat -ErrorAction Stop | Where-Object {
        [string]$_.InternalIPInterfaceAddressPrefix -eq [string]$request.subnet_prefix
    })
    if ([bool]$request.nat_enabled) {
        if ($matchingNat.Count -ne 1 -or [string]$matchingNat[0].Name -ne [string]$request.gateway_id -or -not [bool]$matchingNat[0].Active) {
            throw 'Configured active NAT was not observed on the controlled subnet'
        }
        $natStaticMappings = @(Get-NetNatStaticMapping -ErrorAction SilentlyContinue | Where-Object {
            [string]$_.NatName -eq [string]$request.gateway_id
        })
        if ($natStaticMappings.Count -ne 0) {
            throw 'External mode refuses NAT static mappings that could admit unsolicited inbound traffic'
        }
    } elseif ($matchingNat.Count -ne 0) { throw 'Host-server mode requires NAT to be absent' }
    $routes = @(Get-NetRoute -InterfaceIndex $hostAdapter.ifIndex -AddressFamily IPv4 -ErrorAction Stop)
    if (@($routes | Where-Object { $_.DestinationPrefix -eq '0.0.0.0/0' }).Count -ne 0) {
        throw 'The controlled host adapter has an unexpected default route'
    }
    $firewallScope = [string]$adapters[0].Id
    if ([string]::IsNullOrWhiteSpace($firewallScope)) { throw 'The exact VM adapter firewall scope is missing' }
    if ($null -ne $request.firewall_scope_id -and [string]$request.firewall_scope_id -ne $firewallScope) {
        throw 'VM adapter firewall scope changed after it was journaled'
    }
    if ([bool]$request.prepare_only) {
        [ordered]@{ schema_version = 1; ok = $true; data = [ordered]@{
            firewall_scope_id = [string]$firewallScope
        }} | ConvertTo-Json -Compress -Depth 5
        return
    }
    if ([bool]$request.configure) {
        $preexisting = @(Get-VMNetworkAdapterExtendedAcl -VMNetworkAdapter $adapters[0] -ErrorAction Stop)
        if ($preexisting.Count -ne 0) { throw 'Pre-existing VM adapter ACLs make policy unverifiable' }
        foreach ($rule in @($request.firewall_rules)) {
            $parameters = @{
                VMNetworkAdapter = $adapters[0]
                Direction = [string]$rule.direction; Action = [string]$rule.action; Protocol = [string]$rule.protocol
                Weight = [int32]$rule.priority; Stateful = [bool]$rule.stateful; ErrorAction = 'Stop'
            }
            if (@($rule.local_addresses).Count -ne 1 -or @($rule.remote_addresses).Count -ne 1 -or @($rule.remote_ports).Count -gt 1) {
                throw 'VM adapter ACL rule is not a single exact tuple'
            }
            $parameters.LocalIPAddress = [string]$rule.local_addresses[0]
            if ([string]$rule.remote_addresses[0] -ne 'Any') { $parameters.RemoteIPAddress = [string]$rule.remote_addresses[0] }
            if (@($rule.remote_ports).Count -eq 1) { $parameters.RemotePort = [string]$rule.remote_ports[0] }
            if ([string]$rule.protocol -eq 'Any') { $parameters.Remove('Protocol') }
            try {
                Add-VMNetworkAdapterExtendedAcl @parameters | Out-Null
            } catch {
                throw ('Failed to install VM adapter ACL ' + [string]$rule.name + ': ' + $_.Exception.Message)
            }
        }
    }
    $rules = @(Get-VMNetworkAdapterExtendedAcl -VMNetworkAdapter $adapters[0] -ErrorAction Stop)
    $expectedNames = @($request.firewall_rules | ForEach-Object { [string]$_.name })
    if ($rules.Count -ne $expectedNames.Count) {
        throw 'Required firewall rules are missing or an overly broad rule exists'
    }
    foreach ($expected in @($request.firewall_rules)) {
        $expectedRemote = if ([string]$expected.remote_addresses[0] -eq 'Any') { 'ANY' } else { [string]$expected.remote_addresses[0] }
        $expectedPort = if (@($expected.remote_ports).Count -eq 0) { 'ANY' } else { [string]$expected.remote_ports[0] }
        $expectedProtocol = if ([string]$expected.protocol -eq 'Any') { 'ANY' } else { [string]$expected.protocol }
        $actual = @($rules | Where-Object {
            [string]$_.Direction -eq [string]$expected.direction -and [string]$_.Action -eq [string]$expected.action -and
            [int32]$_.Weight -eq [int32]$expected.priority -and [bool]$_.Stateful -eq [bool]$expected.stateful -and
            [string]$_.LocalIPAddress -eq [string]$expected.local_addresses[0] -and
            [string]$_.RemoteIPAddress -eq $expectedRemote -and [string]$_.RemotePort -eq $expectedPort -and
            [string]$_.Protocol -eq $expectedProtocol
        })
        if ($actual.Count -ne 1) {
            throw "VM adapter ACL tuple is missing, duplicated, or drifted: $($expected.name)"
        }
    }
    $reportedNames = @($expectedNames)
    if ([string]$request.mode -eq 'host_server') {
        $hostRuleId = [string]$request.host_firewall_rule_id
        if ([string]::IsNullOrWhiteSpace($hostRuleId) -or -not $hostRuleId.StartsWith('Foxhole-', [System.StringComparison]::Ordinal)) {
            throw 'Host-server mode omitted its run-owned host firewall rule identifier'
        }
        if ([bool]$request.configure) {
            if (@(Get-NetFirewallRule -Name $hostRuleId -ErrorAction SilentlyContinue).Count -ne 0) {
                throw 'The run-owned host firewall rule identifier already exists'
            }
            New-NetFirewallRule -Name $hostRuleId -DisplayName $hostRuleId -Group 'Foxhole Controlled Networking' `
                -Description ('Foxhole run ' + [string]$request.vm_id + ' adapter ' + [string]$firewallScope) `
                -Enabled True -Profile Any -Direction Inbound -Action Allow -EdgeTraversalPolicy Block `
                -Protocol TCP -LocalAddress ([string]$request.host_ipv4) -RemoteAddress ([string]$request.guest_ipv4) `
                -LocalPort ([uint16]$request.host_service_port) -InterfaceAlias ([string]$hostAdapter.Name) -ErrorAction Stop | Out-Null
        }
        $hostRules = @(Get-NetFirewallRule -Name $hostRuleId -PolicyStore ActiveStore -ErrorAction Stop)
        if ($hostRules.Count -ne 1 -or [string]$hostRules[0].DisplayName -ne $hostRuleId -or
            [string]$hostRules[0].DisplayGroup -ne 'Foxhole Controlled Networking' -or
            [string]$hostRules[0].Enabled -ne 'True' -or [string]$hostRules[0].Direction -ne 'Inbound' -or
            [string]$hostRules[0].Action -ne 'Allow' -or [string]$hostRules[0].EdgeTraversalPolicy -ne 'Block') {
            throw 'Run-owned host firewall rule is missing, disabled, or broader than expected'
        }
        $addressFilter = Get-NetFirewallAddressFilter -AssociatedNetFirewallRule $hostRules[0] -ErrorAction Stop
        $portFilter = Get-NetFirewallPortFilter -AssociatedNetFirewallRule $hostRules[0] -ErrorAction Stop
        $interfaceFilter = Get-NetFirewallInterfaceFilter -AssociatedNetFirewallRule $hostRules[0] -ErrorAction Stop
        if ([string]$addressFilter.LocalAddress -ne [string]$request.host_ipv4 -or
            [string]$addressFilter.RemoteAddress -ne [string]$request.guest_ipv4 -or
            [string]$portFilter.Protocol -ne 'TCP' -or [string]$portFilter.LocalPort -ne [string]$request.host_service_port -or
            [string]$portFilter.RemotePort -ne 'Any' -or [string]$interfaceFilter.InterfaceAlias -ne [string]$hostAdapter.Name) {
            throw 'Run-owned host firewall filters do not match the exact guest/service tuple'
        }
        $sameRunRules = @(Get-NetFirewallRule -PolicyStore ActiveStore -ErrorAction Stop | Where-Object {
            ([string]$_.Name).StartsWith(([string]$hostRuleId).Substring(0, ([string]$hostRuleId).Length - 'host-inbound'.Length), [System.StringComparison]::Ordinal)
        })
        if ($sameRunRules.Count -ne 1) { throw 'An unexpected broader host firewall rule exists for this run' }
        $reportedNames += $hostRuleId
        Require-Command 'Get-NetTCPConnection'
        $listeners = @(Get-NetTCPConnection -State Listen -LocalPort ([uint16]$request.host_service_port) -ErrorAction Stop)
        if (@($listeners | Where-Object { [string]$_.LocalAddress -eq [string]$request.host_ipv4 }).Count -ne 1 -or
            @($listeners | Where-Object { [string]$_.LocalAddress -in @('0.0.0.0','::') }).Count -ne 0) {
            throw 'The HTTP service is not bound exclusively to the configured host address'
        }
    }
    $captureActive = $false
    if ([bool]$request.capture_required) {
        foreach ($name in @('Get-NetEventSession','New-NetEventSession','Add-NetEventPacketCaptureProvider','Get-NetEventPacketCaptureProvider','Start-NetEventSession')) { Require-Command $name }
        if ([bool]$request.configure) {
            if (@(Get-NetEventSession -ErrorAction SilentlyContinue).Count -ne 0) { throw 'An existing capture session prevents exact capture attestation' }
            New-NetEventSession -Name ([string]$request.capture_session) -LocalFilePath ([string]$request.capture_file) -CaptureMode SaveToFile -MaxFileSize 128 -ErrorAction Stop | Out-Null
            Add-NetEventPacketCaptureProvider -SessionName ([string]$request.capture_session) -CaptureType Switch -IpAddresses @([string]$request.guest_ipv4) -EtherType @(0x0800) -VmCaptureDirection IngressAndEgress -TruncationLength 0 -ErrorAction Stop | Out-Null
            Start-NetEventSession -Name ([string]$request.capture_session) -ErrorAction Stop | Out-Null
        }
        $capture = Get-NetEventSession -Name ([string]$request.capture_session) -ErrorAction Stop
        $captureActive = [string]$capture.CaptureMode -eq 'SaveToFile' -and [string]$capture.LocalFilePath -eq [string]$request.capture_file -and [string]$capture.SessionStatus -eq 'Running'
        $provider = Get-NetEventPacketCaptureProvider -SessionName ([string]$request.capture_session) -ErrorAction Stop
        $providerAddresses = @($provider.IpAddresses | ForEach-Object { [string]$_ })
        $captureActive = $captureActive -and $providerAddresses.Count -eq 1 -and $providerAddresses[0] -eq [string]$request.guest_ipv4 -and
            [string]$provider.CaptureType -eq 'Switch' -and [string]$provider.VmCaptureDirection -eq 'IngressAndEgress' -and
            @($provider.EtherType) -contains 2048 -and [uint16]$provider.TruncationLength -eq 0
        if (-not $captureActive) { throw 'Required external-network capture is not active' }
    }
    $guestSeen = $null
    if (@($adapters[0].IPAddresses) -contains [string]$request.guest_ipv4) { $guestSeen = [string]$request.guest_ipv4 }
    $ipv6Seen = @(@($adapters[0].IPAddresses) | Where-Object { $_ -like '*:*' }).Count -ne 0
    $data = [ordered]@{
        adapter_count = [uint32]$adapters.Count; switch_id = [string]$adapters[0].SwitchId
        switch_type = [string]$switch.SwitchType; host_adapter_id = [string]$hostAdapter.InterfaceGuid
        firewall_scope_id = [string]$firewallScope
        host_ipv4 = [string]$request.host_ipv4; guest_ipv4 = $guestSeen
        nat_enabled = [bool]($matchingNat.Count -eq 1)
        firewall_rule_ids = @($reportedNames | Sort-Object)
        capture_active = [bool]$captureActive; ipv6_disabled = [bool](-not $ipv6Seen -and -not [bool]$hostIpv6Binding.Enabled)
        no_unexpected_routes = $true; warnings = @()
    }
    [ordered]@{ schema_version = 1; ok = $true; data = $data } | ConvertTo-Json -Compress -Depth 8
} catch {
    [ordered]@{ schema_version = 1; ok = $false; error = [ordered]@{
        code = 'controlled_network_failed'; message = $_.Exception.Message
    }} | ConvertTo-Json -Compress -Depth 6
}
"#;

/// Removes the firewall rules and the capture of one run.
pub const CLEANUP_CONTROLLED_NETWORK_SCRIPT: &'static str = r#"
$ErrorActionPreference = 'Stop'
$ProgressPreference = 'SilentlyContinue'
[Console]::InputEncoding = [System.Text.UTF8Encoding]::new($false)
[Console]::OutputEncoding = [System.Text.UTF8Encoding]::new($false)
try {
    $request = [Console]::In.ReadToEnd() | ConvertFrom-Json
    $removed = New-Object System.Collections.Generic.List[string]
    if ($null -ne $request.capture_session) {
        $session = Get-NetEventSession -Name ([string]$request.capture_session) -ErrorAction SilentlyContinue
        if ($null -ne $session) {
            if ([string]$session.LocalFilePath -ne [string]$request.capture_file) { throw 'Capture session path no longer proves run ownership' }
            if ([string]$session.SessionStatus -eq 'Running') { Stop-NetEventSession -Name ([string]$request.capture_session) -ErrorAction Stop | Out-Null }
            Remove-NetEventSession -Name ([string]$request.capture_session) -ErrorAction Stop
            $removed.Add('capture:' + [string]$request.capture_session)
        }
    }
    foreach ($name in @($request.firewall_rule_ids)) {
        if (-not ([string]$name).StartsWith([string]$request.rule_prefix, [System.StringComparison]::Ordinal)) { throw 'Rule is outside the run-owned prefix' }
    }
    if ($null -ne $request.host_firewall_rule_id) {
        $hostRuleId = [string]$request.host_firewall_rule_id
        if (-not $hostRuleId.StartsWith([string]$request.rule_prefix, [System.StringComparison]::Ordinal)) {
            throw 'Host firewall rule is outside the run-owned prefix'
        }
        $hostRules = @(Get-NetFirewallRule -Name $hostRuleId -PolicyStore ActiveStore -ErrorAction SilentlyContinue)
        if ($hostRules.Count -ne 1 -or [string]$hostRules[0].DisplayName -ne $hostRuleId -or
            [string]$hostRules[0].DisplayGroup -ne 'Foxhole Controlled Networking' -or
            [string]$hostRules[0].Description -ne ('Foxhole run ' + [string]$request.vm_id + ' adapter ' + [string]$request.firewall_scope_id) -or
            [string]$hostRules[0].Direction -ne 'Inbound' -or [string]$hostRules[0].Action -ne 'Allow') {
            throw 'Host firewall rule no longer proves exact run ownership'
        }
        $hostAdapters = @(Get-NetAdapter -ErrorAction Stop | Where-Object {
            ([string]$_.InterfaceGuid).Trim('{}') -eq ([string]$request.host_adapter_id).Trim('{}')
        })
        if ($hostAdapters.Count -ne 1) { throw 'Run-owned host firewall adapter identity drifted before cleanup' }
        $addressFilter = Get-NetFirewallAddressFilter -AssociatedNetFirewallRule $hostRules[0] -ErrorAction Stop
        $portFilter = Get-NetFirewallPortFilter -AssociatedNetFirewallRule $hostRules[0] -ErrorAction Stop
        $interfaceFilter = Get-NetFirewallInterfaceFilter -AssociatedNetFirewallRule $hostRules[0] -ErrorAction Stop
        if ([string]$addressFilter.LocalAddress -ne [string]$request.host_ipv4 -or
            [string]$addressFilter.RemoteAddress -ne [string]$request.guest_ipv4 -or
            [string]$portFilter.Protocol -ne 'TCP' -or [string]$portFilter.LocalPort -ne [string]$request.host_service_port -or
            [string]$portFilter.RemotePort -ne 'Any' -or [string]$interfaceFilter.InterfaceAlias -ne [string]$hostAdapters[0].Name) {
            throw 'Host firewall filters drifted before cleanup'
        }
        Remove-NetFirewallRule -Name $hostRuleId -ErrorAction Stop
        if ($null -ne (Get-NetFirewallRule -Name $hostRuleId -ErrorAction SilentlyContinue)) {
            throw 'Run-owned host firewall rule remained after cleanup'
        }
        $removed.Add('firewall:' + $hostRuleId)
    }
    $vm = Get-VM -Id ([guid][string]$request.vm_id) -ErrorAction SilentlyContinue
    if ($null -ne $vm) {
        $adapters = @(Get-VMNetworkAdapter -VM $vm -ErrorAction Stop | Where-Object {
            [string]$_.Id -eq [string]$request.firewall_scope_id
        })
        if ($adapters.Count -ne 1) { throw 'Run-owned VM adapter scope was not observed exactly once during ACL cleanup' }
        $acls = @(Get-VMNetworkAdapterExtendedAcl -VMNetworkAdapter $adapters[0] -ErrorAction Stop)
        if ($acls.Count -ne @($request.firewall_rule_ids).Count) { throw 'VM adapter ACL count drifted before cleanup' }
        $acls | Remove-VMNetworkAdapterExtendedAcl -ErrorAction Stop
    }
    foreach ($name in @($request.firewall_rule_ids)) {
        $removed.Add('firewall:' + [string]$name)
    }
    [ordered]@{ schema_version = 1; ok = $true; data = [ordered]@{ removed = @($removed.ToArray()) }} | ConvertTo-Json -Compress -Depth 5
} catch {
    [ordered]@{ schema_version = 1; ok = $false; error = [ordered]@{
        code = 'network_cleanup_failed'; message = $_.Exception.Message
    }} | ConvertTo-Json -Compress -Depth 5
}
"#;

} // verus!
