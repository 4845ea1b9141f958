//! The filter evaluator: whether what a peripheral advertised satisfies a
//! request. A criterion that a clause specifies and the advertisement lacks
//! does not match.
//!
//! A data filter is met by a record of its company or service whose bytes
//! start with the filter's prefix, compared under the filter's mask. A filter
//! without a prefix is met by every record of its company or service. A mask
//! byte that is missing counts as `0xff`, and mask bytes beyond the prefix are
//! not read. A list of data filters asks for each of them.

use crate::bluetooth::bleuuid::{expanded_short_uuid, parse_uuid, parsed_uuid, uuid_from_u32};
use crate::bluetooth::models::{
    BluetoothLEScanFilter, BluetoothManufacturerDataFilter, BluetoothServiceDataFilter,
    BluetoothServiceUUID, Candidate, FilterExpression, PeripheralProperties,
    RequestDeviceOptions,
};
use vstd::prelude::*;

verus! {

/// The UUID that a filter's service entry names, if its text is a UUID at all.
pub open spec fn resolved_uuid(service: BluetoothServiceUUID) -> Option<u128> {
    match service {
        BluetoothServiceUUID::Number(short) => Some(expanded_short_uuid(short)),
        BluetoothServiceUUID::String(text) => parsed_uuid(text@),
    }
}

/// Whether `service` names a UUID and `target` holds it.
pub open spec fn service_advertised(target: Seq<u128>, service: BluetoothServiceUUID) -> bool {
    resolved_uuid(service) matches Some(uuid) && target.contains(uuid)
}

/// Whether every service of `filter` is advertised in `target`.
pub open spec fn services_match(target: Seq<u128>, filter: Seq<BluetoothServiceUUID>) -> bool {
    forall|i: int| 0 <= i < filter.len() ==> service_advertised(target, #[trigger] filter[i])
}

/// The services criterion of a clause.
pub open spec fn services_criterion(
    properties: PeripheralProperties,
    filter: BluetoothLEScanFilter,
) -> bool {
    filter.services matches Some(services) ==> services_match(properties.services@, services@)
}

/// The name criterion of a clause: the advertised name equals the filter's.
pub open spec fn name_criterion(
    properties: PeripheralProperties,
    filter: BluetoothLEScanFilter,
) -> bool {
    filter.name matches Some(name) ==> (properties.local_name matches Some(local_name)
        && local_name@ == name@)
}

/// The name-prefix criterion of a clause: the advertised name starts with the
/// filter's prefix.
pub open spec fn prefix_criterion(
    properties: PeripheralProperties,
    filter: BluetoothLEScanFilter,
) -> bool {
    filter.name_prefix matches Some(prefix) ==> (properties.local_name matches Some(local_name)
        && prefix@.is_prefix_of(local_name@))
}

/// The bytes that a data filter asks a record to start with.
pub open spec fn prefix_bytes(data_prefix: Option<Vec<u8>>) -> Seq<u8> {
    match data_prefix {
        Some(bytes) => bytes@,
        None => Seq::empty(),
    }
}

/// The mask under which the byte at `index` is compared.
pub open spec fn mask_byte(mask: Option<Vec<u8>>, index: int) -> u8 {
    match mask {
        Some(bytes) => if index < bytes@.len() {
            bytes@[index]
        } else {
            0xff
        },
        None => 0xff,
    }
}

/// Whether the bytes of a record start with the prefix, under the mask.
pub open spec fn data_matches(
    data: Seq<u8>,
    data_prefix: Option<Vec<u8>>,
    mask: Option<Vec<u8>>,
) -> bool {
    &&& prefix_bytes(data_prefix).len() <= data.len()
    &&& forall|i: int|
        0 <= i < prefix_bytes(data_prefix).len() ==> (#[trigger] data[i]) & mask_byte(mask, i)
            == prefix_bytes(data_prefix)[i] & mask_byte(mask, i)
}

/// Whether some record of the filter's company meets the filter.
pub open spec fn manufacturer_filter_met(
    records: Seq<(u16, Vec<u8>)>,
    filter: BluetoothManufacturerDataFilter,
) -> bool {
    exists|i: int|
        0 <= i < records.len() && (#[trigger] records[i]).0 == filter.company_identifier
            && data_matches(records[i].1@, filter.data_prefix, filter.mask)
}

/// Whether the filter's service is a UUID and some record of it meets the filter.
pub open spec fn service_filter_met(
    records: Seq<(u128, Vec<u8>)>,
    filter: BluetoothServiceDataFilter,
) -> bool {
    resolved_uuid(filter.service) matches Some(uuid) && exists|i: int|
        0 <= i < records.len() && (#[trigger] records[i]).0 == uuid && data_matches(
            records[i].1@,
            filter.data_prefix,
            filter.mask,
        )
}

/// The manufacturer-data criterion of a clause: each of its filters is met.
pub open spec fn manufacturer_data_criterion(
    properties: PeripheralProperties,
    filter: BluetoothLEScanFilter,
) -> bool {
    filter.manufacturer_data matches Some(filters) ==> forall|i: int|
        0 <= i < filters@.len() ==> manufacturer_filter_met(
            properties.manufacturer_data@,
            #[trigger] filters@[i],
        )
}

/// The service-data criterion of a clause: each of its filters is met.
pub open spec fn service_data_criterion(
    properties: PeripheralProperties,
    filter: BluetoothLEScanFilter,
) -> bool {
    filter.service_data matches Some(filters) ==> forall|i: int|
        0 <= i < filters@.len() ==> service_filter_met(
            properties.service_data@,
            #[trigger] filters@[i],
        )
}

/// Whether a peripheral satisfies one clause: every criterion of the clause holds.
pub open spec fn filter_matches(
    properties: PeripheralProperties,
    filter: BluetoothLEScanFilter,
) -> bool {
    &&& services_criterion(properties, filter)
    &&& name_criterion(properties, filter)
    &&& prefix_criterion(properties, filter)
    &&& manufacturer_data_criterion(properties, filter)
    &&& service_data_criterion(properties, filter)
}

/// Whether a peripheral satisfies some clause of `filters`.
pub open spec fn any_filter_matches(
    properties: PeripheralProperties,
    filters: Seq<BluetoothLEScanFilter>,
) -> bool {
    exists|i: int| 0 <= i < filters.len() && filter_matches(properties, #[trigger] filters[i])
}

/// Whether a peripheral satisfies the options of a request: all devices are
/// accepted, or some clause of the filter list matches.
pub open spec fn options_match(
    properties: PeripheralProperties,
    options: RequestDeviceOptions,
) -> bool {
    options.accept_all_devices == Some(true) || (options.filters matches Some(filters)
        && any_filter_matches(properties, filters@))
}

/// Whether a peripheral satisfies a filter expression.
pub open spec fn expression_matches(
    properties: PeripheralProperties,
    expression: FilterExpression,
) -> bool {
    match expression {
        FilterExpression::AcceptAll => true,
        FilterExpression::AnyOf(filters) => any_filter_matches(properties, filters@),
    }
}

/// Whether a candidate's advertisement could be read and satisfies the expression.
pub open spec fn candidate_matches<H>(
    candidate: Candidate<H>,
    expression: FilterExpression,
) -> bool {
    candidate.properties matches Some(properties) && expression_matches(properties, expression)
}

/// Whether `index` is the place of the first candidate that matches.
pub open spec fn is_first_match<H>(
    candidates: Seq<Candidate<H>>,
    expression: FilterExpression,
    index: int,
) -> bool {
    &&& 0 <= index < candidates.len()
    &&& candidate_matches(candidates[index], expression)
    &&& forall|earlier: int|
        0 <= earlier < index ==> !candidate_matches(#[trigger] candidates[earlier], expression)
}

/// The place of the first candidate that matches, if any candidate does.
pub open spec fn first_match<H>(
    candidates: Seq<Candidate<H>>,
    expression: FilterExpression,
) -> Option<int> {
    if exists|index: int| is_first_match(candidates, expression, index) {
        Some(choose|index: int| is_first_match(candidates, expression, index))
    } else {
        None
    }
}

/// A sequence of candidates has at most one first match.
pub proof fn lemma_first_match_unique<H>(
    candidates: Seq<Candidate<H>>,
    expression: FilterExpression,
    index: int,
)
    requires
        is_first_match(candidates, expression, index),
    ensures
        first_match(candidates, expression) == Some(index),
{
    let chosen = choose|chosen: int| is_first_match(candidates, expression, chosen);
    if chosen < index {
        assert(!candidate_matches(candidates[chosen], expression));
    } else if index < chosen {
        assert(!candidate_matches(candidates[index], expression));
    }
}

/// `str::starts_with` with a string as the pattern: whether the text begins
/// with the characters of the prefix.
#[verifier::external_body]
fn starts_with(text: &str, prefix: &str) -> (begins: bool)
    ensures
        begins == prefix@.is_prefix_of(text@),
{
    text.starts_with(prefix)
}

/// Resolves a filter's service entry to the UUID it names.
pub fn resolve_service(service: &BluetoothServiceUUID) -> (uuid: Option<u128>)
    ensures
        uuid == resolved_uuid(*service),
{
    match service {
        BluetoothServiceUUID::Number(short) => Some(uuid_from_u32(*short)),
        BluetoothServiceUUID::String(text) => parse_uuid(text.as_str()),
    }
}

/// Whether `service` is a UUID that `target_services` holds.
pub fn includes_service(target_services: &[u128], service: Option<u128>) -> (found: bool)
    ensures
        found == (service matches Some(uuid) && target_services@.contains(uuid)),
{
    match service {
        None => false,
        Some(uuid) => {
            let mut i: usize = 0;
            while i < target_services.len()
                invariant
                    service == Some(uuid),
                    i <= target_services.len(),
                    forall|j: int| 0 <= j < i ==> target_services@[j] != uuid,
                decreases target_services.len() - i,
            {
                if target_services[i] == uuid {
                    assert(target_services@[i as int] == uuid);
                    return true;
                }
                i += 1;
            }
            false
        },
    }
}

/// Whether the advertised services hold every service that the filter asks
/// for. A filter entry whose text is no UUID is held by no peripheral.
pub fn match_services(
    target_services: &[u128],
    filter_services: &[BluetoothServiceUUID],
) -> (matched: bool)
    ensures
        matched == services_match(target_services@, filter_services@),
{
    let mut i: usize = 0;
    while i < filter_services.len()
        invariant
            i <= filter_services.len(),
            forall|j: int|
                0 <= j < i ==> service_advertised(target_services@, #[trigger] filter_services@[j]),
        decreases filter_services.len() - i,
    {
        let resolved = resolve_service(&filter_services[i]);
        if !includes_service(target_services, resolved) {
            assert(!service_advertised(target_services@, filter_services@[i as int]));
            return false;
        }
        i += 1;
    }
    true
}

/// Evaluates the services criterion of a clause.
pub fn is_services_match(
    properties: &PeripheralProperties,
    filter: &BluetoothLEScanFilter,
) -> (matched: bool)
    ensures
        matched == services_criterion(*properties, *filter),
{
    match &filter.services {
        Some(services) => match_services(properties.services.as_slice(), services.as_slice()),
        None => true,
    }
}

/// Evaluates the name criterion of a clause.
pub fn is_name_match(
    properties: &PeripheralProperties,
    filter: &BluetoothLEScanFilter,
) -> (matched: bool)
    ensures
        matched == name_criterion(*properties, *filter),
{
    match &filter.name {
        None => true,
        Some(name) => match &properties.local_name {
            Some(local_name) => *local_name == *name,
            None => false,
        },
    }
}

/// Evaluates the name-prefix criterion of a clause.
pub fn is_prefix_match(
    properties: &PeripheralProperties,
    filter: &BluetoothLEScanFilter,
) -> (matched: bool)
    ensures
        matched == prefix_criterion(*properties, *filter),
{
    match &filter.name_prefix {
        None => true,
        Some(prefix) => match &properties.local_name {
            Some(local_name) => starts_with(local_name.as_str(), prefix.as_str()),
            None => false,
        },
    }
}

/// Whether the bytes of a record start with the prefix, under the mask.
pub fn match_data(
    data: &[u8],
    data_prefix: &Option<Vec<u8>>,
    mask: &Option<Vec<u8>>,
) -> (matched: bool)
    ensures
        matched == data_matches(data@, *data_prefix, *mask),
{
    let prefix = match data_prefix {
        Some(prefix) => prefix,
        None => {
            return true;
        },
    };
    if prefix.len() > data.len() {
        return false;
    }
    let mut i: usize = 0;
    while i < prefix.len()
        invariant
            *data_prefix == Some(*prefix),
            i <= prefix.len() <= data.len(),
            forall|j: int|
                0 <= j < i ==> (#[trigger] data@[j]) & mask_byte(*mask, j) == prefix@[j]
                    & mask_byte(*mask, j),
        decreases prefix.len() - i,
    {
        let mask_here: u8 = match mask {
            Some(bytes) => if i < bytes.len() {
                bytes[i]
            } else {
                0xff
            },
            None => 0xff,
        };
        if data[i] & mask_here != prefix[i] & mask_here {
            return false;
        }
        i += 1;
    }
    true
}

/// Whether some record of the filter's company meets the filter.
pub fn match_manufacturer_filter(
    records: &[(u16, Vec<u8>)],
    filter: &BluetoothManufacturerDataFilter,
) -> (matched: bool)
    ensures
        matched == manufacturer_filter_met(records@, *filter),
{
    let mut i: usize = 0;
    while i < records.len()
        invariant
            i <= records.len(),
            forall|j: int|
                0 <= j < i ==> !((#[trigger] records@[j]).0 == filter.company_identifier
                    && data_matches(records@[j].1@, filter.data_prefix, filter.mask)),
        decreases records.len() - i,
    {
        if records[i].0 == filter.company_identifier && match_data(
            records[i].1.as_slice(),
            &filter.data_prefix,
            &filter.mask,
        ) {
            return true;
        }
        i += 1;
    }
    false
}

/// Whether the filter's service is a UUID and some record of it meets the filter.
pub fn match_service_filter(
    records: &[(u128, Vec<u8>)],
    filter: &BluetoothServiceDataFilter,
) -> (matched: bool)
    ensures
        matched == service_filter_met(records@, *filter),
{
    let uuid = match resolve_service(&filter.service) {
        Some(uuid) => uuid,
        None => {
            return false;
        },
    };
    let mut i: usize = 0;
    while i < records.len()
        invariant
            resolved_uuid(filter.service) == Some(uuid),
            i <= records.len(),
            forall|j: int|
                0 <= j < i ==> !((#[trigger] records@[j]).0 == uuid && data_matches(
                    records@[j].1@,
                    filter.data_prefix,
                    filter.mask,
                )),
        decreases records.len() - i,
    {
        if records[i].0 == uuid && match_data(
            records[i].1.as_slice(),
            &filter.data_prefix,
            &filter.mask,
        ) {
            return true;
        }
        i += 1;
    }
    false
}

/// Evaluates the manufacturer-data criterion of a clause.
pub fn is_manufacturer_data_match(
    properties: &PeripheralProperties,
    filter: &BluetoothLEScanFilter,
) -> (matched: bool)
    ensures
        matched == manufacturer_data_criterion(*properties, *filter),
{
    let filters = match &filter.manufacturer_data {
        Some(filters) => filters,
        None => {
            return true;
        },
    };
    let mut i: usize = 0;
    while i < filters.len()
        invariant
            filter.manufacturer_data == Some(*filters),
            i <= filters.len(),
            forall|j: int|
                0 <= j < i ==> manufacturer_filter_met(
                    properties.manufacturer_data@,
                    #[trigger] filters@[j],
                ),
        decreases filters.len() - i,
    {
        if !match_manufacturer_filter(properties.manufacturer_data.as_slice(), &filters[i]) {
            assert(!manufacturer_filter_met(
                properties.manufacturer_data@,
                (filter.manufacturer_data->0)@[i as int],
            ));
            return false;
        }
        i += 1;
    }
    true
}

/// Evaluates the service-data criterion of a clause.
pub fn is_service_data_match(
    properties: &PeripheralProperties,
    filter: &BluetoothLEScanFilter,
) -> (matched: bool)
    ensures
        matched == service_data_criterion(*properties, *filter),
{
    let filters = match &filter.service_data {
        Some(filters) => filters,
        None => {
            return true;
        },
    };
    let mut i: usize = 0;
    while i < filters.len()
        invariant
            filter.service_data == Some(*filters),
            i <= filters.len(),
            forall|j: int|
                0 <= j < i ==> service_filter_met(properties.service_data@, #[trigger] filters@[j]),
        decreases filters.len() - i,
    {
        if !match_service_filter(properties.service_data.as_slice(), &filters[i]) {
            assert(!service_filter_met(
                properties.service_data@,
                (filter.service_data->0)@[i as int],
            ));
            return false;
        }
        i += 1;
    }
    true
}

/// Evaluates one clause against a peripheral.
pub fn match_filter(
    properties: &PeripheralProperties,
    filter: &BluetoothLEScanFilter,
) -> (matched: bool)
    ensures
        matched == filter_matches(*properties, *filter),
{
    is_services_match(properties, filter) && is_name_match(properties, filter) && is_prefix_match(
        properties,
        filter,
    ) && is_manufacturer_data_match(properties, filter) && is_service_data_match(
        properties,
        filter,
    )
}

/// Whether some clause of `filters` matches the peripheral.
pub fn match_any_filter(
    properties: &PeripheralProperties,
    filters: &[BluetoothLEScanFilter],
) -> (matched: bool)
    ensures
        matched == any_filter_matches(*properties, filters@),
{
    let mut i: usize = 0;
    while i < filters.len()
        invariant
            i <= filters.len(),
            forall|j: int| 0 <= j < i ==> !filter_matches(*properties, #[trigger] filters@[j]),
        decreases filters.len() - i,
    {
        if match_filter(properties, &filters[i]) {
            return true;
        }
        i += 1;
    }
    false
}

/// Evaluates the options of a request against a peripheral.
pub fn match_options(
    properties: &PeripheralProperties,
    options: &RequestDeviceOptions,
) -> (matched: bool)
    ensures
        matched == options_match(*properties, *options),
{
    let accept_all = match options.accept_all_devices {
        Some(accept) => accept,
        None => false,
    };
    if accept_all {
        return true;
    }
    match &options.filters {
        Some(filters) => match_any_filter(properties, filters.as_slice()),
        None => false,
    }
}

/// Evaluates a filter expression against a peripheral.
pub fn match_expression(
    properties: &PeripheralProperties,
    expression: &FilterExpression,
) -> (matched: bool)
    ensures
        matched == expression_matches(*properties, *expression),
{
    match expression {
        FilterExpression::AcceptAll => true,
        FilterExpression::AnyOf(filters) => match_any_filter(properties, filters.as_slice()),
    }
}

/// Finds the first candidate whose advertisement could be read and satisfies
/// the expression.
pub fn find_match<H>(
    candidates: &Vec<Candidate<H>>,
    expression: &FilterExpression,
) -> (found: Option<usize>)
    ensures
        match found {
            Some(index) => first_match(candidates@, *expression) == Some(index as int),
            None => first_match(candidates@, *expression) is None,
        },
{
    let mut i: usize = 0;
    while i < candidates.len()
        invariant
            i <= candidates.len(),
            forall|earlier: int|
                0 <= earlier < i ==> !candidate_matches(
                    #[trigger] candidates@[earlier],
                    *expression,
                ),
        decreases candidates.len() - i,
    {
        let matched = match &candidates[i].properties {
            Some(properties) => match_expression(properties, expression),
            None => false,
        };
        if matched {
            proof {
                lemma_first_match_unique(candidates@, *expression, i as int);
            }
            return Some(i);
        }
        i += 1;
    }
    proof {
        if exists|index: int| is_first_match(candidates@, *expression, index) {
            let index = choose|index: int| is_first_match(candidates@, *expression, index);
            assert(!candidate_matches(candidates@[index], *expression));
        }
    }
    None
}

/// For a valid request, the options and the filter expression that validation
/// makes of them match the same peripherals.
pub proof fn lemma_validation_keeps_matching(
    properties: PeripheralProperties,
    options: RequestDeviceOptions,
)
    requires
        options.valid(),
    ensures
        expression_matches(properties, options.validated().filter) == options_match(
            properties,
            options,
        ),
{
}

/// A request that accepts all devices matches every peripheral, whatever
/// clauses it brings besides.
pub proof fn lemma_accept_all_matches_everything(
    properties: PeripheralProperties,
    options: RequestDeviceOptions,
)
    requires
        options.accept_all_devices == Some(true),
    ensures
        options_match(properties, options),
        expression_matches(properties, options.validated().filter),
{
}

/// A clause that asks for a name or for a name prefix matches no peripheral
/// that advertises no name.
pub proof fn lemma_missing_name_fails_name_criteria(
    properties: PeripheralProperties,
    filter: BluetoothLEScanFilter,
)
    requires
        properties.local_name is None,
        filter.name is Some || filter.name_prefix is Some,
    ensures
        !filter_matches(properties, filter),
{
}

/// A clause that asks for manufacturer data or for service data matches no
/// peripheral that advertises no record of that kind.
pub proof fn lemma_missing_data_fails_data_criteria(
    properties: PeripheralProperties,
    filter: BluetoothLEScanFilter,
)
    requires
        ({
            ||| filter.manufacturer_data matches Some(filters) && filters@.len() > 0
                && properties.manufacturer_data@.len() == 0
            ||| filter.service_data matches Some(filters) && filters@.len() > 0
                && properties.service_data@.len() == 0
        }),
    ensures
        !filter_matches(properties, filter),
{
    if filter.manufacturer_data is Some && filter.manufacturer_data->0@.len() > 0
        && properties.manufacturer_data@.len() == 0 {
        let filters = filter.manufacturer_data->0;
        assert(!manufacturer_filter_met(properties.manufacturer_data@, filters@[0]));
    } else {
        let filters = filter.service_data->0;
        assert(!service_filter_met(properties.service_data@, filters@[0]));
    }
}

/// Matching looks only at the UUID that a service entry names: a short
/// number and a text that reads as the number's full UUID are advertised by
/// the same peripherals.
pub proof fn lemma_short_and_full_form_agree(target: Seq<u128>, short: u32, text: String)
    ensures
        parsed_uuid(text@) == Some(expanded_short_uuid(short)) ==> service_advertised(
            target,
            BluetoothServiceUUID::String(text),
        ) == service_advertised(target, BluetoothServiceUUID::Number(short)),
{
}

/// A peripheral that advertises every service a filter asks for still does
/// so when it advertises more.
pub proof fn lemma_more_services_still_match(
    target: Seq<u128>,
    more: Seq<u128>,
    filter: Seq<BluetoothServiceUUID>,
)
    requires
        services_match(target, filter),
    ensures
        services_match(target + more, filter),
{
    assert forall|i: int| 0 <= i < filter.len() implies service_advertised(
        target + more,
        #[trigger] filter[i],
    ) by {
        assert(service_advertised(target, filter[i]));
        let uuid = resolved_uuid(filter[i])->0;
        let place = choose|place: int| 0 <= place < target.len() && target[place] == uuid;
        assert((target + more)[place] == uuid);
    }
}

} // verus!
