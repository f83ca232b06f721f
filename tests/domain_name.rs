use acmed_dns_helper::domain_name::get_domain_names_to_use;

#[test]
fn domain_name_test_get_domain_names_to_use() {
    let result = get_domain_names_to_use("example");
    assert_eq!(result.root_domain(), "example");
    assert_eq!(result.challenge_record_name(), "_acme-challenge");

    let result = get_domain_names_to_use("example.com");
    assert_eq!(result.root_domain(), "example.com");
    assert_eq!(result.challenge_record_name(), "_acme-challenge");

    let result = get_domain_names_to_use("test.example.com");
    assert_eq!(result.root_domain(), "example.com");
    assert_eq!(result.challenge_record_name(), "_acme-challenge.test");

    let result = get_domain_names_to_use("foo.bar.example.com");
    assert_eq!(result.root_domain(), "example.com");
    assert_eq!(result.challenge_record_name(), "_acme-challenge.foo.bar");
}

fn names(domain: &str) -> (String, String) {
    let r = get_domain_names_to_use(domain);
    (r.root_domain().to_string(), r.challenge_record_name().to_string())
}

#[test]
fn main_test_get_domain_names_to_use() {
    let (root, challenge_record) = names("example");
    assert_eq!(root, "example");
    assert_eq!(challenge_record, "_acme-challenge");

    let (root, challenge_record) = names("example.com");
    assert_eq!(root, "example.com");
    assert_eq!(challenge_record, "_acme-challenge");

    let (root, challenge_record) = names("test.example.com");
    assert_eq!(root, "example.com");
    assert_eq!(challenge_record, "_acme-challenge.test");

    let (root, challenge_record) = names("foo.bar.example.com");
    assert_eq!(root, "example.com");
    assert_eq!(challenge_record, "_acme-challenge.foo.bar");
}

#[test]
fn short_domains_are_their_own_zone() {
    for domain in ["localhost", "example.org", "a.b"] {
        let (root, name) = names(domain);
        assert_eq!(root, domain);
        assert_eq!(name, "_acme-challenge");
    }
}

#[test]
fn long_domains_keep_the_last_two_labels() {
    let (root, name) = names("a.b.c.d.example.net");
    assert_eq!(root, "example.net");
    assert_eq!(name, "_acme-challenge.a.b.c.d");
}

#[test]
fn multi_label_public_suffix_is_not_special() {
    let (root, name) = names("www.example.co.uk");
    assert_eq!(root, "co.uk");
    assert_eq!(name, "_acme-challenge.www.example");
}

#[test]
fn decomposition_is_repeatable() {
    assert_eq!(names("x.y.example.com"), names("x.y.example.com"));
}

#[test]
fn empty_and_dotted_edges() {
    assert_eq!(names(""), (String::new(), "_acme-challenge".to_string()));
    assert_eq!(names(".com"), (".com".to_string(), "_acme-challenge".to_string()));
    assert_eq!(names("a..b"), (".b".to_string(), "_acme-challenge.a".to_string()));
}

#[test]
fn non_ascii_labels() {
    let (root, name) = names("测试.例子.中国");
    assert_eq!(root, "例子.中国");
    assert_eq!(name, "_acme-challenge.测试");
}
