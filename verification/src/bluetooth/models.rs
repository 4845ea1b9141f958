use crate::error::Error;
use vstd::prelude::*;

verus! {

/// A Bluetooth service UUID, given either as a short number or as a string.
///
/// A number is expanded with the Bluetooth base UUID; a string is read as a
/// UUID in any of the usual textual forms.
#[derive(Debug, Clone, PartialEq, Eq)]
pub enum BluetoothServiceUUID {
    Number(u32),
    String(String),
}

/// A filter on a data record: a prefix the record must start with, under a mask.
#[derive(Debug, Clone, Default, PartialEq, Eq)]
pub struct BluetoothDataFilter {
    pub data_prefix: Option<Vec<u8>>,
    pub mask: Option<Vec<u8>>,
}

/// A data filter on the manufacturer data of one company.
#[derive(Debug, Clone, PartialEq, Eq)]
pub struct BluetoothManufacturerDataFilter {
    pub data_prefix: Option<Vec<u8>>,
    pub mask: Option<Vec<u8>>,
    pub company_identifier: u16,
}

/// A data filter on the service data of one service.
#[derive(Debug, Clone, PartialEq, Eq)]
pub struct BluetoothServiceDataFilter {
    pub data_prefix: Option<Vec<u8>>,
    pub mask: Option<Vec<u8>>,
    pub service: BluetoothServiceUUID,
}

/// One clause of a scan filter. A criterion that is absent constrains nothing.
#[derive(Debug, Clone, Default, PartialEq, Eq)]
pub struct BluetoothLEScanFilter {
    pub name: Option<String>,
    pub name_prefix: Option<String>,
    pub services: Option<Vec<BluetoothServiceUUID>>,
    pub manufacturer_data: Option<Vec<BluetoothManufacturerDataFilter>>,
    pub service_data: Option<Vec<BluetoothServiceDataFilter>>,
}

/// The options of a device request as they arrive from the caller.
///
/// `timeout` is the scan's upper bound in milliseconds.
#[derive(Debug, Clone, PartialEq, Eq)]
pub struct RequestDeviceOptions {
    pub accept_all_devices: Option<bool>,
    pub filters: Option<Vec<BluetoothLEScanFilter>>,
    pub timeout: Option<u64>,
}

/// What a peripheral advertised, read at one moment of a scan.
#[derive(Debug, Clone, Default, PartialEq, Eq)]
pub struct PeripheralProperties {
    /// The advertised local name, if any.
    pub local_name: Option<String>,
    /// The advertised service UUIDs, each as its 128-bit value.
    pub services: Vec<u128>,
    /// The advertised manufacturer data: company identifiers with their bytes.
    pub manufacturer_data: Vec<(u16, Vec<u8>)>,
    /// The advertised service data: service UUIDs with their bytes.
    pub service_data: Vec<(u128, Vec<u8>)>,
}

/// A peripheral that a scan came across: its address, what it advertised, if
/// that could be read, and the handle under which the stack knows it.
#[derive(Debug, Clone, PartialEq, Eq)]
pub struct Candidate<H> {
    pub address: String,
    pub properties: Option<PeripheralProperties>,
    pub handle: H,
}

/// What a valid request asks for: every device, or a device that satisfies
/// one of the clauses of a list.
#[derive(Debug, Clone, PartialEq, Eq)]
pub enum FilterExpression {
    AcceptAll,
    AnyOf(Vec<BluetoothLEScanFilter>),
}

/// A request that passed validation: its filter expression and the upper
/// bound of its scan in milliseconds.
#[derive(Debug, Clone, PartialEq, Eq)]
pub struct ScanRequest {
    pub filter: FilterExpression,
    pub timeout_millis: u64,
}

/// The scan's upper bound, in milliseconds, for a request that names none.
pub const DEFAULT_TIMEOUT_MILLIS: u64 = 5000;

impl FilterExpression {
    /// An expression with a list of clauses has at least one clause.
    pub open spec fn well_formed(self) -> bool {
        self matches FilterExpression::AnyOf(filters) ==> filters@.len() > 0
    }
}

impl RequestDeviceOptions {
    /// A request is valid if it accepts all devices or brings at least one clause.
    pub open spec fn valid(self) -> bool {
        self.accept_all_devices == Some(true) || (self.filters matches Some(filters)
            && filters@.len() > 0)
    }

    /// The filter expression of a valid request. To accept all devices takes
    /// precedence over a list of clauses.
    pub open spec fn expression(self) -> FilterExpression {
        if self.accept_all_devices == Some(true) {
            FilterExpression::AcceptAll
        } else {
            FilterExpression::AnyOf(self.filters->0)
        }
    }

    /// The scan's upper bound: the one the request names, or the default.
    pub open spec fn timeout_millis(self) -> u64 {
        match self.timeout {
            Some(millis) => millis,
            None => DEFAULT_TIMEOUT_MILLIS,
        }
    }

    /// What validation makes of a valid request.
    pub open spec fn validated(self) -> ScanRequest {
        ScanRequest { filter: self.expression(), timeout_millis: self.timeout_millis() }
    }

    /// Whether the request is valid.
    pub fn is_valid(&self) -> (valid: bool)
        ensures
            valid == self.valid(),
    {
        let accept_all = match self.accept_all_devices {
            Some(accept) => accept,
            None => false,
        };
        accept_all || match &self.filters {
            Some(filters) => filters.len() > 0,
            None => false,
        }
    }

    /// Validates the request once, at the boundary: a request that neither
    /// accepts all devices nor brings a clause is refused, and every other
    /// request becomes its filter expression and its timeout.
    pub fn validate(self) -> (request: Result<ScanRequest, Error>)
        ensures
            self.valid() ==> request == Ok::<ScanRequest, Error>(self.validated()),
            !self.valid() ==> request == Err::<ScanRequest, Error>(
                Error::InvalidRequestDeviceOptions,
            ),
            request matches Ok(accepted) ==> accepted.filter.well_formed(),
    {
        let timeout_millis = match self.timeout {
            Some(millis) => millis,
            None => DEFAULT_TIMEOUT_MILLIS,
        };
        let accept_all = match self.accept_all_devices {
            Some(accept) => accept,
            None => false,
        };
        if accept_all {
            return Ok(ScanRequest { filter: FilterExpression::AcceptAll, timeout_millis });
        }
        match self.filters {
            Some(filters) => {
                if filters.len() > 0 {
                    Ok(ScanRequest { filter: FilterExpression::AnyOf(filters), timeout_millis })
                } else {
                    Err(Error::InvalidRequestDeviceOptions)
                }
            },
            None => Err(Error::InvalidRequestDeviceOptions),
        }
    }
}

} // verus!
