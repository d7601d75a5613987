//! Input and output endpoints.
use vstd::prelude::*;

use crate::error::WasapiError;

verus! {

/// The direction of an endpoint.
#[derive(Debug, Clone, Copy, PartialEq, Eq, Structural)]
pub enum EndpointFlow {
    /// An output endpoint, such as loudspeakers.
    Render,
    /// An input endpoint, such as a microphone.
    Capture,
}

/// An audio endpoint.
#[derive(Debug, Clone)]
pub struct EndpointDevice {
    /// The id that Windows knows the endpoint by.
    pub id: String,
    /// The name shown to the user.
    pub friendly_name: String,
    pub is_default: bool,
    pub flow: EndpointFlow,
}

/// The number of Windows for input endpoints.
pub const DATA_FLOW_CAPTURE: i32 = 1;

impl From<i32> for EndpointFlow {
    fn from(flow: i32) -> (r: Self) {
        if flow == DATA_FLOW_CAPTURE {
            EndpointFlow::Capture
        } else {
            EndpointFlow::Render
        }
    }
}

impl vstd::std_specs::convert::FromSpecImpl<i32> for EndpointFlow {
    open spec fn obeys_from_spec() -> bool {
        true
    }

    open spec fn from_spec(flow: i32) -> Self {
        if flow == DATA_FLOW_CAPTURE {
            EndpointFlow::Capture
        } else {
            EndpointFlow::Render
        }
    }
}

/// What Windows answers about an endpoint; it may have no name.
#[derive(Debug)]
pub struct RawEndpoint {
    pub id: String,
    pub friendly_name: Option<String>,
}

/// What Windows answers about the endpoints of one direction.
#[derive(Debug)]
pub struct RawEndpoints {
    pub default_id: Option<String>,
    pub items: Vec<RawEndpoint>,
}

/// Whether `d` is the endpoint that `raw` describes.
pub open spec fn describes(
    raw: RawEndpoint,
    default_id: Option<String>,
    flow: EndpointFlow,
    d: EndpointDevice,
) -> bool {
    &&& d.id@ == raw.id@
    &&& d.friendly_name@ == match raw.friendly_name {
        Some(name) => name@,
        None => "<未知>"@,
    }
    &&& d.is_default == match default_id {
        Some(id) => id@ == raw.id@,
        None => false,
    }
    &&& d.flow == flow
}

/// Whether `list` holds the endpoints of `raws`, in their order.
pub open spec fn listed(
    raws: RawEndpoints,
    flow: EndpointFlow,
    list: Seq<EndpointDevice>,
) -> bool {
    &&& list.len() == raws.items@.len()
    &&& forall|i: int|
        0 <= i < list.len() ==> describes(
            raws.items@[i],
            raws.default_id,
            flow,
            #[trigger] list[i],
        )
}

/// The endpoints of one direction.
pub fn enumerate(raws: &RawEndpoints, flow: EndpointFlow) -> (list: Vec<EndpointDevice>)
    ensures
        listed(*raws, flow, list@),
{
    let mut list: Vec<EndpointDevice> = Vec::new();
    let mut i: usize = 0;
    while i < raws.items.len()
        invariant
            i <= raws.items@.len(),
            list@.len() == i,
            forall|j: int|
                0 <= j < i ==> describes(
                    raws.items@[j],
                    raws.default_id,
                    flow,
                    #[trigger] list@[j],
                ),
        decreases raws.items.len() - i,
    {
        let raw = &raws.items[i];
        let friendly_name = match &raw.friendly_name {
            Some(name) => name.clone(),
            None => "<未知>".to_string(),
        };
        let is_default = match &raws.default_id {
            Some(id) => id.eq(&raw.id),
            None => false,
        };
        list.push(EndpointDevice { id: raw.id.clone(), friendly_name, is_default, flow });
        i = i + 1;
    }
    list
}

/// The input endpoints, or why they cannot be listed.
pub fn list_input_devices(raws: Result<RawEndpoints, WasapiError>) -> (r: Result<
    Vec<EndpointDevice>,
    WasapiError,
>)
    ensures
        match raws {
            Ok(raws) => r matches Ok(list) && listed(raws, EndpointFlow::Capture, list@),
            Err(e) => r == Err::<Vec<EndpointDevice>, WasapiError>(e),
        },
{
    match raws {
        Ok(raws) => Ok(enumerate(&raws, EndpointFlow::Capture)),
        Err(e) => Err(e),
    }
}

/// The output endpoints, or why they cannot be listed.
pub fn list_output_devices(raws: Result<RawEndpoints, WasapiError>) -> (r: Result<
    Vec<EndpointDevice>,
    WasapiError,
>)
    ensures
        match raws {
            Ok(raws) => r matches Ok(list) && listed(raws, EndpointFlow::Render, list@),
            Err(e) => r == Err::<Vec<EndpointDevice>, WasapiError>(e),
        },
{
    match raws {
        Ok(raws) => Ok(enumerate(&raws, EndpointFlow::Render)),
        Err(e) => Err(e),
    }
}

/// The endpoint that is selected at first: the first default one, or else the
/// first.
pub open spec fn first_choice(list: Seq<EndpointDevice>) -> Option<int> {
    if list.len() == 0 {
        None
    } else if exists|i: int| 0 <= i < list.len() && (#[trigger] list[i]).is_default {
        Some(
            choose|i: int|
                0 <= i < list.len() && (#[trigger] list[i]).is_default && forall|j: int|
                    0 <= j < i ==> !(#[trigger] list[j]).is_default,
        )
    } else {
        Some(0)
    }
}

/// The id of the endpoint that is selected at first.
pub fn default_choice(list: &Vec<EndpointDevice>) -> (r: Option<String>)
    ensures
        match first_choice(list@) {
            Some(i) => 0 <= i < list@.len() && r == Some(list@[i].id),
            None => r is None,
        },
        r is Some <==> list@.len() > 0,
{
    let mut i: usize = 0;
    while i < list.len()
        invariant
            i <= list@.len(),
            forall|j: int| 0 <= j < i ==> !(#[trigger] list@[j]).is_default,
        decreases list.len() - i,
    {
        if list[i].is_default {
            proof {
                let c = first_choice(list@)->0;
                assert(list@[i as int].is_default);
                assert(0 <= c < list@.len() && list@[c].is_default && forall|j: int|
                    0 <= j < c ==> !(#[trigger] list@[j]).is_default);
                assert(c == i);
            }
            return Some(list[i].id.clone());
        }
        i = i + 1;
    }
    if list.len() > 0 {
        Some(list[0].id.clone())
    } else {
        None
    }
}

/// Every endpoint keeps its id, and exactly the endpoints with the id that
/// Windows names as the default are marked so.
pub proof fn law_default_mark(
    raws: RawEndpoints,
    flow: EndpointFlow,
    list: Seq<EndpointDevice>,
    i: int,
)
    requires
        listed(raws, flow, list),
        0 <= i < list.len(),
    ensures
        list[i].id@ == raws.items@[i].id@,
        list[i].is_default <==> raws.default_id is Some && raws.default_id->0@ == list[i].id@,
{
}

/// An endpoint of the list: its id and direction, its name, or the placeholder
/// where Windows has none.
pub proof fn law_listed_endpoint(
    raws: RawEndpoints,
    flow: EndpointFlow,
    list: Seq<EndpointDevice>,
    i: int,
)
    requires
        listed(raws, flow, list),
        0 <= i < raws.items@.len(),
    ensures
        list.len() == raws.items@.len(),
        list[i].id@ == raws.items@[i].id@,
        list[i].flow == flow,
        raws.items@[i].friendly_name is Some ==> list[i].friendly_name@
            == raws.items@[i].friendly_name->0@,
        raws.items@[i].friendly_name is None ==> list[i].friendly_name@ == "<未知>"@,
        raws.default_id is Some ==> (list[i].is_default <==> raws.default_id->0@
            == raws.items@[i].id@),
        raws.default_id is None ==> !list[i].is_default,
{
}

/// Some default endpoint has no other before it.
proof fn lemma_first_default(list: Seq<EndpointDevice>, k: int)
    requires
        0 <= k < list.len(),
        list[k].is_default,
    ensures
        exists|i: int|
            0 <= i < list.len() && (#[trigger] list[i]).is_default && forall|j: int|
                0 <= j < i ==> !(#[trigger] list[j]).is_default,
    decreases k,
{
    if exists|j: int| 0 <= j < k && (#[trigger] list[j]).is_default {
        let j = choose|j: int| 0 <= j < k && (#[trigger] list[j]).is_default;
        lemma_first_default(list, j);
    } else {
        assert(list[k].is_default && forall|j: int|
            0 <= j < k ==> !(#[trigger] list[j]).is_default);
    }
}

/// The endpoint selected at first: the first that is a default, where there is
/// one; else the first of all; none exactly where the list is empty.
pub proof fn law_first_choice(list: Seq<EndpointDevice>, k: int)
    ensures
        first_choice(list) is None <==> list.len() == 0,
        first_choice(list) matches Some(i) ==> 0 <= i < list.len(),
        0 <= k < list.len() && list[k].is_default && (forall|j: int|
            0 <= j < k ==> !(#[trigger] list[j]).is_default) ==> first_choice(list) == Some(k),
        list.len() > 0 && (forall|j: int|
            0 <= j < list.len() ==> !(#[trigger] list[j]).is_default) ==> first_choice(list)
            == Some(0int),
{
    if exists|i: int| 0 <= i < list.len() && (#[trigger] list[i]).is_default {
        let i = choose|i: int| 0 <= i < list.len() && (#[trigger] list[i]).is_default;
        lemma_first_default(list, i);
        let c = first_choice(list)->0;
        assert(0 <= c < list.len() && list[c].is_default && forall|j: int|
            0 <= j < c ==> !(#[trigger] list[j]).is_default);
        if 0 <= k < list.len() && list[k].is_default && (forall|j: int|
            0 <= j < k ==> !(#[trigger] list[j]).is_default) {
            assert(c == k);
        }
    }
}

/// Of the numbers of Windows for a direction, 1 and only 1 is that of inputs.
pub proof fn law_flow_numbers(flow: i32)
    ensures
        <EndpointFlow as vstd::std_specs::convert::FromSpec<i32>>::from_spec(flow) == if flow == 1 {
            EndpointFlow::Capture
        } else {
            EndpointFlow::Render
        },
{
}

} // verus!
