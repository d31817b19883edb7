//! The fields of the BIOS, system, baseboard, chassis and processor
//! structures whose value may fail to parse.

use vstd::prelude::*;

verus! {

/// The field whose value could not be parsed.
#[derive(Clone, Copy, Debug, PartialEq, Eq, Structural)]
pub enum BiosParseError {
    BiosVendor,
    BiosVersion,
    BiosReleaseDate,
    BiosRevision,
    FirmwareRevision,
    SystemManufacturer,
    SystemProductName,
    SystemVersion,
    SystemSerialNumber,
    SystemUuid,
    SystemSkuNumber,
    SystemFamily,
    BaseboardManufacturer,
    BaseboardProductName,
    BaseboardVersion,
    BaseboardSerialNumber,
    BaseboardAssetTag,
    ChassisManufacturer,
    ChassisType,
    ChassisVersion,
    ChassisSerialNumber,
    ChassisAssetTag,
    ProcessorFamily,
    ProcessorManufacturer,
    ProcessorVersion,
    ProcessorFrequency,
}

impl BiosParseError {
    /// The name of the field, as the text of an error shows it.
    pub open spec fn name_spec(self) -> Seq<char> {
        match self {
            BiosParseError::BiosVendor => "BiosVendor"@,
            BiosParseError::BiosVersion => "BiosVersion"@,
            BiosParseError::BiosReleaseDate => "BiosReleaseDate"@,
            BiosParseError::BiosRevision => "BiosRevision"@,
            BiosParseError::FirmwareRevision => "FirmwareRevision"@,
            BiosParseError::SystemManufacturer => "SystemManufacturer"@,
            BiosParseError::SystemProductName => "SystemProductName"@,
            BiosParseError::SystemVersion => "SystemVersion"@,
            BiosParseError::SystemSerialNumber => "SystemSerialNumber"@,
            BiosParseError::SystemUuid => "SystemUuid"@,
            BiosParseError::SystemSkuNumber => "SystemSkuNumber"@,
            BiosParseError::SystemFamily => "SystemFamily"@,
            BiosParseError::BaseboardManufacturer => "BaseboardManufacturer"@,
            BiosParseError::BaseboardProductName => "BaseboardProductName"@,
            BiosParseError::BaseboardVersion => "BaseboardVersion"@,
            BiosParseError::BaseboardSerialNumber => "BaseboardSerialNumber"@,
            BiosParseError::BaseboardAssetTag => "BaseboardAssetTag"@,
            BiosParseError::ChassisManufacturer => "ChassisManufacturer"@,
            BiosParseError::ChassisType => "ChassisType"@,
            BiosParseError::ChassisVersion => "ChassisVersion"@,
            BiosParseError::ChassisSerialNumber => "ChassisSerialNumber"@,
            BiosParseError::ChassisAssetTag => "ChassisAssetTag"@,
            BiosParseError::ProcessorFamily => "ProcessorFamily"@,
            BiosParseError::ProcessorManufacturer => "ProcessorManufacturer"@,
            BiosParseError::ProcessorVersion => "ProcessorVersion"@,
            BiosParseError::ProcessorFrequency => "ProcessorFrequency"@,
        }
    }

    /// The name of the field.
    pub fn name(&self) -> (name: &'static str)
        ensures
            name@ == self.name_spec(),
    {
        match self {
            BiosParseError::BiosVendor => "BiosVendor",
            BiosParseError::BiosVersion => "BiosVersion",
            BiosParseError::BiosReleaseDate => "BiosReleaseDate",
            BiosParseError::BiosRevision => "BiosRevision",
            BiosParseError::FirmwareRevision => "FirmwareRevision",
            BiosParseError::SystemManufacturer => "SystemManufacturer",
            BiosParseError::SystemProductName => "SystemProductName",
            BiosParseError::SystemVersion => "SystemVersion",
            BiosParseError::SystemSerialNumber => "SystemSerialNumber",
            BiosParseError::SystemUuid => "SystemUuid",
            BiosParseError::SystemSkuNumber => "SystemSkuNumber",
            BiosParseError::SystemFamily => "SystemFamily",
            BiosParseError::BaseboardManufacturer => "BaseboardManufacturer",
            BiosParseError::BaseboardProductName => "BaseboardProductName",
            BiosParseError::BaseboardVersion => "BaseboardVersion",
            BiosParseError::BaseboardSerialNumber => "BaseboardSerialNumber",
            BiosParseError::BaseboardAssetTag => "BaseboardAssetTag",
            BiosParseError::ChassisManufacturer => "ChassisManufacturer",
            BiosParseError::ChassisType => "ChassisType",
            BiosParseError::ChassisVersion => "ChassisVersion",
            BiosParseError::ChassisSerialNumber => "ChassisSerialNumber",
            BiosParseError::ChassisAssetTag => "ChassisAssetTag",
            BiosParseError::ProcessorFamily => "ProcessorFamily",
            BiosParseError::ProcessorManufacturer => "ProcessorManufacturer",
            BiosParseError::ProcessorVersion => "ProcessorVersion",
            BiosParseError::ProcessorFrequency => "ProcessorFrequency",
        }
    }

    /// The text of the error: the name of the field.
    pub fn to_string(&self) -> (text: String)
        ensures
            text@ == self.name_spec(),
    {
        self.name().to_owned()
    }

    /// The error that caused this one. A field that fails to parse has no
    /// deeper cause.
    pub fn source(&self) -> (cause: Option<BiosParseError>)
        ensures
            cause is None,
    {
        None
    }
}

} // verus!
