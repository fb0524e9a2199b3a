use std::cell::Cell;
use std::rc::Rc;

use bahamut::{BahamutError, BahamutModule, DomainFetcher, ExecutionError, ModuleInfo, ModuleRegistry};

struct Named {
    name: &'static str,
    description: &'static str,
}

impl BahamutModule for Named {
    fn name(&self) -> &str {
        self.name
    }

    fn description(&self) -> &str {
        self.description
    }

    fn execute(&self, _target: &str) -> Result<(), ExecutionError> {
        Ok(())
    }
}

struct Counting {
    calls: Rc<Cell<u32>>,
}

impl BahamutModule for Counting {
    fn name(&self) -> &str {
        "Counting"
    }

    fn description(&self) -> &str {
        "Counts how often it runs"
    }

    fn execute(&self, _target: &str) -> Result<(), ExecutionError> {
        self.calls.set(self.calls.get() + 1);
        Ok(())
    }
}

fn fetch() -> Named {
    Named { name: "Domain Fetcher", description: "Downloads public bug hunting domains" }
}

fn portscan() -> Named {
    Named { name: "Port Scanner", description: "Probes open ports" }
}

#[test]
fn new_registry_is_empty() {
    let registry: ModuleRegistry<Named> = ModuleRegistry::new();
    assert!(registry.is_empty());
    assert_eq!(registry.len(), 0);
    assert!(registry.list().is_empty());
    assert!(registry.ids().is_empty());
    assert!(registry.resolve("fetch").is_none());
    assert!(!registry.contains("fetch"));
}

#[test]
fn resolve_returns_the_registered_module() {
    let mut registry = ModuleRegistry::new();
    assert_eq!(registry.register(String::from("fetch"), fetch()), Ok(()));
    assert_eq!(registry.register(String::from("portscan"), portscan()), Ok(()));
    let found = registry.resolve("fetch").expect("fetch is registered");
    assert_eq!(found.name(), "Domain Fetcher");
    let found = registry.resolve("portscan").expect("portscan is registered");
    assert_eq!(found.name(), "Port Scanner");
    assert_eq!(found.description(), "Probes open ports");
    assert!(registry.contains("fetch"));
    assert!(registry.contains("portscan"));
    assert_eq!(registry.len(), 2);
    assert!(!registry.is_empty());
}

#[test]
fn resolve_returns_the_very_module_that_was_registered() {
    let first = Rc::new(Cell::new(0));
    let second = Rc::new(Cell::new(0));
    let mut registry = ModuleRegistry::new();
    assert_eq!(registry.register(String::from("first"), Counting { calls: first.clone() }), Ok(()));
    assert_eq!(
        registry.register(String::from("second"), Counting { calls: second.clone() }),
        Ok(())
    );
    let found = registry.resolve("second").expect("second is registered");
    assert_eq!(found.execute("example.com"), Ok(()));
    assert_eq!(first.get(), 0);
    assert_eq!(second.get(), 1);
    let found = registry.resolve("first").expect("first is registered");
    assert_eq!(found.execute("example.com"), Ok(()));
    assert_eq!(found.execute("example.org"), Ok(()));
    assert_eq!(first.get(), 2);
    assert_eq!(second.get(), 1);
}

#[test]
fn a_registry_of_boxed_modules_holds_modules_of_several_kinds() {
    let mut registry: ModuleRegistry<Box<dyn BahamutModule>> = ModuleRegistry::new();
    assert_eq!(registry.register(String::from("fetch"), Box::new(DomainFetcher)), Ok(()));
    assert_eq!(registry.register(String::from("portscan"), Box::new(portscan())), Ok(()));
    assert_eq!(registry.resolve("fetch").expect("registered").name(), "Domain Fetcher");
    assert_eq!(registry.resolve("portscan").expect("registered").name(), "Port Scanner");
    assert_eq!(
        registry.resolve("portscan").expect("registered").description(),
        "Probes open ports"
    );
    assert_eq!(registry.resolve("fetch").expect("registered").execute("example.com"), Ok(()));
    assert_eq!(registry.ids(), vec!["fetch", "portscan"]);
}

#[test]
fn resolve_of_an_unknown_id_returns_nothing() {
    let mut registry = ModuleRegistry::new();
    assert_eq!(registry.register(String::from("fetch"), fetch()), Ok(()));
    assert!(registry.resolve("portscan").is_none());
    assert!(registry.resolve("").is_none());
    assert!(registry.resolve("Fetch").is_none());
    assert!(registry.resolve("fetch ").is_none());
    assert!(!registry.contains("portscan"));
}

#[test]
fn duplicate_id_is_refused_and_changes_nothing() {
    let mut registry = ModuleRegistry::new();
    assert_eq!(registry.register(String::from("fetch"), fetch()), Ok(()));
    assert_eq!(registry.register(String::from("portscan"), portscan()), Ok(()));
    let before = registry.list();
    let refused = registry.register(
        String::from("fetch"),
        Named { name: "Impostor", description: "Takes the place of another" },
    );
    assert_eq!(
        refused,
        Err(BahamutError::DuplicateModuleId { module_id: String::from("fetch") })
    );
    assert_eq!(registry.list(), before);
    assert_eq!(registry.len(), 2);
    assert_eq!(registry.resolve("fetch").expect("still registered").name(), "Domain Fetcher");
    assert_eq!(registry.register(String::from("dns"), portscan()), Ok(()));
    assert_eq!(registry.ids(), vec!["fetch", "portscan", "dns"]);
}

#[test]
fn listing_keeps_registration_order() {
    let mut registry = ModuleRegistry::new();
    assert_eq!(registry.register(String::from("fetch"), fetch()), Ok(()));
    assert_eq!(registry.register(String::from("portscan"), portscan()), Ok(()));
    assert_eq!(
        registry.list(),
        vec![
            ModuleInfo {
                id: String::from("fetch"),
                name: String::from("Domain Fetcher"),
                description: String::from("Downloads public bug hunting domains"),
            },
            ModuleInfo {
                id: String::from("portscan"),
                name: String::from("Port Scanner"),
                description: String::from("Probes open ports"),
            },
        ]
    );
    assert_eq!(registry.ids(), vec!["fetch", "portscan"]);
}

#[test]
fn listing_order_is_not_alphabetical() {
    let mut registry = ModuleRegistry::new();
    for id in ["zeta", "alpha", "mid", "beta"] {
        assert_eq!(registry.register(String::from(id), fetch()), Ok(()));
    }
    assert_eq!(registry.ids(), vec!["zeta", "alpha", "mid", "beta"]);
    let listed: Vec<String> = registry.list().into_iter().map(|info| info.id).collect();
    assert_eq!(listed, vec!["zeta", "alpha", "mid", "beta"]);
}

#[test]
fn many_modules_resolve_each_to_its_own() {
    let mut registry = ModuleRegistry::new();
    let names = ["a", "b", "c", "d", "e", "f", "g", "h"];
    for name in names {
        let module = Named { name, description: "" };
        assert_eq!(registry.register(format!("id-{}", name), module), Ok(()));
    }
    for name in names {
        let found = registry.resolve(&format!("id-{}", name)).expect("registered");
        assert_eq!(found.name(), name);
    }
    assert_eq!(registry.len(), 8);
}

#[test]
fn from_modules_registers_in_the_order_of_the_list() {
    let registry = ModuleRegistry::from_modules(vec![
        (String::from("fetch"), fetch()),
        (String::from("portscan"), portscan()),
    ])
    .ok()
    .expect("the identifiers are distinct");
    assert_eq!(registry.ids(), vec!["fetch", "portscan"]);
    assert_eq!(registry.resolve("portscan").expect("registered").name(), "Port Scanner");
    assert_eq!(registry.resolve("fetch").expect("registered").name(), "Domain Fetcher");
}

#[test]
fn from_modules_of_nothing_is_empty() {
    let registry: ModuleRegistry<Named> =
        ModuleRegistry::from_modules(Vec::new()).ok().expect("nothing can repeat");
    assert!(registry.is_empty());
}

#[test]
fn from_modules_refuses_the_first_repeated_id() {
    let refused = ModuleRegistry::from_modules(vec![
        (String::from("a"), fetch()),
        (String::from("b"), fetch()),
        (String::from("b"), portscan()),
        (String::from("a"), portscan()),
    ]);
    assert_eq!(
        refused.err(),
        Some(BahamutError::DuplicateModuleId { module_id: String::from("b") })
    );
    let refused = ModuleRegistry::from_modules(vec![
        (String::from("a"), fetch()),
        (String::from("b"), fetch()),
        (String::from("a"), portscan()),
        (String::from("b"), portscan()),
    ]);
    assert_eq!(
        refused.err(),
        Some(BahamutError::DuplicateModuleId { module_id: String::from("a") })
    );
}
