use servify::naming::{
    find_method_of_export, make_export_name, make_internal_fn_name, make_request_name,
    make_response_name, make_variant_name,
};
use servify::text::{strip_prefix, trim_start_matches};

#[test]
fn snake_and_camel_case() {
    assert_eq!(make_request_name("martinLutherStringJr"), "__martin_luther_string_jr_request");
    assert_eq!(make_response_name("WildUnderscoreS"), "__wild_underscore_s_response");
    assert_eq!(make_request_name("fooby"), "__fooby_request");
    assert_eq!(make_variant_name("a_string_and_a_miss"), "AStringAndAMiss");
    assert_eq!(make_variant_name("_wild__underscore_s_"), "WildUnderscoreS");
    assert_eq!(make_variant_name("fooby"), "Fooby");
}

#[test]
fn derived_names() {
    assert_eq!(make_export_name("Counter", "increment_and_get"), "Counter_increment_and_get");
    assert_eq!(make_request_name("incrementAndGet"), "__increment_and_get_request");
    assert_eq!(make_response_name("get"), "__get_response");
    assert_eq!(make_internal_fn_name("get"), "__internal_get");
    assert_eq!(make_variant_name("increment_and_get"), "IncrementAndGet");
}

#[test]
fn export_name_round_trip() {
    let name = make_export_name("SimpleCounter", "increment_and_get_ex");
    assert_eq!(find_method_of_export("SimpleCounter", &name), Some("increment_and_get_ex".to_string()));
    assert_eq!(find_method_of_export("Counter", "counter_increment"), None);
    // A method whose name begins with an underscore is not found again as it was named.
    let name = make_export_name("A", "_private");
    assert_eq!(find_method_of_export("A", &name), Some("private".to_string()));
}

#[test]
fn prefix_and_trim() {
    assert_eq!(strip_prefix("Counter_get", "Counter"), Some("_get".to_string()));
    assert_eq!(strip_prefix("Count", "Counter"), None);
    assert_eq!(strip_prefix("言語_x", "言語"), Some("_x".to_string()));
    assert_eq!(trim_start_matches("__a_b", '_'), "a_b");
    assert_eq!(trim_start_matches("___", '_'), "");
}
