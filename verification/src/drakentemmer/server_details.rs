use vstd::prelude::*;

verus! {

/// The panel's answer to a request for a server's details.
#[derive(Debug)]
pub struct ServerDetailsResponse {
    pub attributes: ServerDetailsAttributes,
}

/// What the panel knows of a server.
#[derive(Debug)]
pub struct ServerDetailsAttributes {
    pub identifier: String,
    pub uuid: String,
    pub name: String,
    pub relationships: ServerDetailsRelationships,
}

/// The objects related to a server.
#[derive(Debug)]
pub struct ServerDetailsRelationships {
    pub allocations: ServerDetailsAllocations,
}

/// The network allocations of a server.
#[derive(Debug)]
pub struct ServerDetailsAllocations {
    pub data: Vec<ServerDetailsAllocationData>,
}

/// One network allocation of a server.
#[derive(Debug)]
pub struct ServerDetailsAllocationData {
    pub attributes: ServerDetailsAllocationAttributes,
}

/// Where an allocation listens.
#[derive(Debug)]
pub struct ServerDetailsAllocationAttributes {
    pub ip: String,
    pub ip_alias: Option<String>,
    pub port: u16,
    pub is_default: bool,
}

/// The allocations that the panel lists for the server.
pub open spec fn allocations_of(details: ServerDetailsResponse) -> Seq<ServerDetailsAllocationData> {
    details.attributes.relationships.allocations.data@
}

/// The allocation that a server is reached at: the first one marked default, or else
/// the first one.
pub open spec fn is_chosen_allocation(s: Seq<ServerDetailsAllocationData>, i: int) -> bool {
    &&& 0 <= i < s.len()
    &&& if s[i].attributes.is_default {
        forall|j: int| 0 <= j < i ==> !(#[trigger] s[j]).attributes.is_default
    } else {
        &&& i == 0
        &&& forall|j: int| 0 <= j < s.len() ==> !(#[trigger] s[j]).attributes.is_default
    }
}

/// The host name that an allocation is reached by: its alias, or else its address.
pub open spec fn host_of(a: ServerDetailsAllocationAttributes) -> Seq<char> {
    match a.ip_alias {
        Some(alias) => alias@,
        None => a.ip@,
    }
}

/// The index of the allocation that a server is reached at.
pub fn default_allocation(data: &Vec<ServerDetailsAllocationData>) -> (i: usize)
    requires
        data@.len() > 0,
    ensures
        is_chosen_allocation(data@, i as int),
{
    let mut i: usize = 0;
    while i < data.len()
        invariant
            i <= data@.len(),
            forall|j: int| 0 <= j < i ==> !(#[trigger] data@[j]).attributes.is_default,
        decreases data.len() - i,
    {
        if data[i].attributes.is_default {
            return i;
        }
        i = i + 1;
    }
    0
}

/// The host and port that the panel's details name for a server; a failed request for
/// the details yields `Could not get server details`.
pub fn get_from_ptero<E>(server_details: Result<ServerDetailsResponse, E>) -> (r: Result<
    (String, u16),
    String,
>)
    requires
        server_details matches Ok(d) ==> allocations_of(d).len() > 0,
    ensures
        match server_details {
            Ok(d) => r matches Ok((host, port)) && exists|i: int|
                is_chosen_allocation(allocations_of(d), i) && host@ == host_of(
                    #[trigger] allocations_of(d)[i].attributes,
                ) && port == allocations_of(d)[i].attributes.port,
            Err(_) => r matches Err(m) && m@ == "Could not get server details"@,
        },
{
    match server_details {
        Ok(details) => {
            let data = &details.attributes.relationships.allocations.data;
            let i = default_allocation(data);
            let a = &data[i].attributes;
            let host = match &a.ip_alias {
                Some(alias) => alias.clone(),
                None => a.ip.clone(),
            };
            Ok((host, a.port))
        },
        Err(_) => Err(String::from_str("Could not get server details")),
    }
}

} // verus!
