//! Context building (which queries the running machine's OS description)
//! and the remote-call stage over the recording port.

use hey_cli::call_server::CallServer;
use hey_cli::common::{CliContext, ContextCategory};
use hey_cli::generate_context::GenerateContext;
use hey_cli::utils::{Port, PortTrait, State};

#[test]
fn context_holds_a_general_category_with_os_descriptors() {
    let mut port = Port::new();
    let call_server = GenerateContext::new("my ask".to_string())
        .next(&mut port)
        .expect("context building has no failure mode");
    assert_eq!(call_server.ask, "my ask");
    assert_eq!(call_server.context.categories.len(), 1);
    let general = &call_server.context.categories[0];
    assert_eq!(general.name, "general");
    let keys: Vec<&str> = general.entries.iter().map(|e| e.key.as_str()).collect();
    assert_eq!(&keys[..3], &["os_type", "os_version", "os_bitness"]);
    assert!(keys.len() == 3 || keys[3] == "os_architecture");
    // the descriptors come from the machine: present, not fabricated blanks
    assert!(!general.entries[0].value.is_empty());
}

#[test]
fn remote_call_over_the_recording_port_echoes_the_ask() {
    let mut port = Port::new();
    let stage = CallServer {
        ask: "list files".to_string(),
        context: CliContext { categories: Vec::<ContextCategory>::new() },
    };
    let prompt = stage.next(&mut port).expect("the recording port always answers");
    assert_eq!(prompt.value, "echo \"list files\"");
}
