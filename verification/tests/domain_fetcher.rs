use bahamut::{BahamutModule, DomainFetcher};

#[test]
fn fetcher_identity() {
    assert_eq!(DomainFetcher.name(), "Domain Fetcher");
    assert_eq!(DomainFetcher.description(), "Downloads public bug hunting domains");
}

#[test]
fn fetcher_accepts_every_target() {
    assert_eq!(DomainFetcher.execute("example.com"), Ok(()));
    assert_eq!(DomainFetcher.execute("https://example.com/path"), Ok(()));
    assert_eq!(DomainFetcher.execute("not a domain"), Ok(()));
}

#[test]
fn fetcher_progress_line() {
    assert_eq!(
        DomainFetcher::progress_line("example.com"),
        "Fetching domains for target: example.com"
    );
    assert_eq!(DomainFetcher::progress_line(""), "Fetching domains for target: ");
}

#[test]
fn boxed_fetcher_is_a_module() {
    let boxed: Box<dyn BahamutModule> = Box::new(DomainFetcher);
    let twice: Box<Box<dyn BahamutModule>> = Box::new(boxed);
    assert_eq!(BahamutModule::name(&twice), "Domain Fetcher");
    assert_eq!(BahamutModule::description(&twice), "Downloads public bug hunting domains");
    assert_eq!(BahamutModule::execute(&twice, "example.com"), Ok(()));
}
