use system_recorder::devices::{
    default_choice, enumerate, list_input_devices, list_output_devices, EndpointDevice,
    EndpointFlow, RawEndpoint, RawEndpoints,
};
use system_recorder::error::WasapiError;

fn raws(default_id: Option<&str>) -> RawEndpoints {
    RawEndpoints {
        default_id: default_id.map(|s| s.to_string()),
        items: vec![
            RawEndpoint { id: "a".to_string(), friendly_name: Some("麦克风".to_string()) },
            RawEndpoint { id: "b".to_string(), friendly_name: None },
        ],
    }
}

fn device(id: &str, is_default: bool) -> EndpointDevice {
    EndpointDevice {
        id: id.to_string(),
        friendly_name: "x".to_string(),
        is_default,
        flow: EndpointFlow::Capture,
    }
}

#[test]
fn flows_come_from_numbers_of_windows() {
    assert_eq!(EndpointFlow::from(0), EndpointFlow::Render);
    assert_eq!(EndpointFlow::from(1), EndpointFlow::Capture);
    assert_eq!(EndpointFlow::from(2), EndpointFlow::Render);
}

#[test]
fn endpoints_are_listed_in_their_order() {
    let list = enumerate(&raws(Some("b")), EndpointFlow::Capture);
    assert_eq!(list.len(), 2);
    assert_eq!(list[0].id, "a");
    assert_eq!(list[0].friendly_name, "麦克风");
    assert!(!list[0].is_default);
    assert_eq!(list[1].id, "b");
    assert_eq!(list[1].friendly_name, "<未知>");
    assert!(list[1].is_default);
    assert_eq!(list[1].flow, EndpointFlow::Capture);
}

#[test]
fn without_a_default_none_is_marked() {
    for d in enumerate(&raws(None), EndpointFlow::Render) {
        assert!(!d.is_default);
        assert_eq!(d.flow, EndpointFlow::Render);
    }
}

#[test]
fn inputs_and_outputs_have_their_flow() {
    let inputs = list_input_devices(Ok(raws(None))).unwrap();
    assert_eq!(inputs[0].flow, EndpointFlow::Capture);
    let outputs = list_output_devices(Ok(raws(None))).unwrap();
    assert_eq!(outputs[0].flow, EndpointFlow::Render);
    assert!(matches!(
        list_input_devices(Err(WasapiError::BadString)),
        Err(WasapiError::BadString)
    ));
    match list_output_devices(Err(WasapiError::Windows("x".to_string()))) {
        Err(e) => assert_eq!(e, WasapiError::Windows("x".to_string())),
        Ok(_) => panic!("listed"),
    }
}

#[test]
fn the_default_endpoint_is_chosen_first() {
    assert_eq!(default_choice(&vec![]), None);
    assert_eq!(
        default_choice(&vec![device("a", false), device("b", false)]).as_deref(),
        Some("a")
    );
    assert_eq!(
        default_choice(&vec![device("a", false), device("b", true), device("c", true)]).as_deref(),
        Some("b")
    );
}
