//! Context building: a fresh two-level mapping holding, at minimum, a
//! "general" category with the running machine's OS descriptors.

use crate::call_server::CallServer;
use crate::common::{entries_view, CliContext, ContextCategory, ContextEntry};
use crate::utils::{Error, PortTrait, State};
use vstd::prelude::*;

verus! {

/// The plain values describing the running machine's OS.
pub struct OsDescriptor {
    pub os_type: Seq<char>,
    pub os_version: Seq<char>,
    pub os_bitness: Seq<char>,
    pub os_architecture: Option<Seq<char>>,
}

/// The entries of the "general" category built from an OS descriptor, in
/// insertion order; the architecture entry stands only where one is known.
pub open spec fn general_entries_spec(os: OsDescriptor) -> Seq<(Seq<char>, Seq<char>)> {
    let base = seq![
        ("os_type"@, os.os_type),
        ("os_version"@, os.os_version),
        ("os_bitness"@, os.os_bitness),
    ];
    match os.os_architecture {
        Some(arch) => base.push(("os_architecture"@, arch)),
        None => base,
    }
}

/// The context-building stage's state: the validated ask.
#[derive(Debug)]
pub struct GenerateContext {
    pub ask: String,
}

impl GenerateContext {
    pub fn new(ask: String) -> (r: Self)
        ensures
            r.ask == ask,
    {
        Self { ask }
    }
}

/// Relies on os_info::get and the accessors of its result: the type,
/// version, bitness and (optional) architecture of the running OS, as
/// strings.  The values depend on the machine, so nothing is stated of them.
#[verifier::external_body]
fn query_os_info() -> (String, String, String, Option<String>) {
    let info = os_info::get();
    let arch = match info.architecture() {
        Some(a) => Some(a.to_string()),
        None => None,
    };
    (
        info.os_type().to_string(),
        info.version().to_string(),
        info.bitness().to_string(),
        arch,
    )
}

/// Assembles the request state from the ask and the OS descriptor values.
fn build_context(
    ask: String,
    os_type: String,
    os_version: String,
    os_bitness: String,
    os_architecture: Option<String>,
) -> (r: CallServer)
    ensures
        r.ask == ask,
        r.context.categories@.len() == 1,
        r.context.categories@[0].name@ == "general"@,
        entries_view(r.context.categories@[0].entries@) == general_entries_spec(
            OsDescriptor {
                os_type: os_type@,
                os_version: os_version@,
                os_bitness: os_bitness@,
                os_architecture: os_architecture.deep_view(),
            },
        ),
{
    let ghost os = OsDescriptor {
        os_type: os_type@,
        os_version: os_version@,
        os_bitness: os_bitness@,
        os_architecture: os_architecture.deep_view(),
    };
    let mut entries: Vec<ContextEntry> = Vec::new();
    entries.push(ContextEntry { key: String::from_str("os_type"), value: os_type });
    entries.push(ContextEntry { key: String::from_str("os_version"), value: os_version });
    entries.push(ContextEntry { key: String::from_str("os_bitness"), value: os_bitness });
    match os_architecture {
        Some(arch) => {
            entries.push(ContextEntry { key: String::from_str("os_architecture"), value: arch });
        },
        None => {},
    }
    proof {
        assert(entries_view(entries@) =~= general_entries_spec(os));
    }
    let mut categories: Vec<ContextCategory> = Vec::new();
    categories.push(ContextCategory { name: String::from_str("general"), entries });
    CallServer { ask, context: CliContext { categories } }
}

impl State<CallServer> for GenerateContext {
    /// Builds the context afresh: one "general" category carrying whatever
    /// OS descriptors the machine reports.  No effects, no failure mode.
    fn next<P: PortTrait>(self, port: &mut P) -> (r: Result<CallServer, Error>)
        ensures
            final(port).model() == old(port).model(),
            r is Ok,
            r matches Ok(cs) ==> cs.ask == self.ask && cs.context.categories@.len() == 1
                && cs.context.categories@[0].name@ == "general"@ && exists|os: OsDescriptor|
                entries_view(cs.context.categories@[0].entries@) == general_entries_spec(os),
    {
        let (os_type, os_version, os_bitness, os_architecture) = query_os_info();
        let ghost os = OsDescriptor {
            os_type: os_type@,
            os_version: os_version@,
            os_bitness: os_bitness@,
            os_architecture: os_architecture.deep_view(),
        };
        let cs = build_context(self.ask, os_type, os_version, os_bitness, os_architecture);
        proof {
            assert(entries_view(cs.context.categories@[0].entries@) == general_entries_spec(os));
        }
        Ok(cs)
    }
}

} // verus!
