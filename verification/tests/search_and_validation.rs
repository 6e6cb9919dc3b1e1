use kernelia::common::{
    normalize_limit, normalize_sort_by, validate_max_len, validate_message, validate_non_empty, validate_password,
    validate_username,
};
use kernelia::microsoft_search::{build_microsoft_search_query, is_whitelisted_microsoft_url};
use kernelia::retrieval::{
    embedding_dim, normalize_text, query_category_code, specialty_code, specialty_from_code, specialty_from_specialty_id,
    specialty_id,
};
use kernelia::models::{DomainSpecialty, QueryCategory};

#[test]
fn validates_whitelisted_microsoft_domains() {
    assert!(is_whitelisted_microsoft_url("https://learn.microsoft.com/en-us/windows/"));
    assert!(is_whitelisted_microsoft_url("https://support.microsoft.com/kb/12345"));
    assert!(is_whitelisted_microsoft_url("https://answers.microsoft.com/thread/99"));
    assert!(!is_whitelisted_microsoft_url("https://untrusted-thirdparty-forum.com/malware"));
}

#[test]
fn builds_whitelisted_search_query() {
    let query = build_microsoft_search_query("error spooler windows 11");
    assert!(query.contains("site:learn.microsoft.com"));
    assert!(query.contains("error spooler windows 11"));
}

#[test]
fn search_query_drops_site_operators_and_links() {
    assert_eq!(
        build_microsoft_search_query("  site:evil.com http://x  "),
        "evil.com ://x (site:learn.microsoft.com OR site:support.microsoft.com OR site:answers.microsoft.com OR site:techcommunity.microsoft.com)"
    );
    assert!(is_whitelisted_microsoft_url("HTTPS://TechCommunity.Microsoft.com/t5"));
}

#[test]
fn validators_report_blank_then_length() {
    assert_eq!(validate_non_empty("message", "   "), Err("API_VALIDATION: 'message' no puede estar vacio".to_string()));
    assert_eq!(validate_non_empty("message", " x "), Ok(()));
    assert_eq!(validate_max_len("username", "abcd", 3), Err("API_VALIDATION: 'username' excede longitud maxima (3)".to_string()));
    assert_eq!(validate_max_len("username", "ñññ", 3), Ok(()));
    assert_eq!(validate_username(&"a".repeat(65)), Err("API_VALIDATION: 'username' excede longitud maxima (64)".to_string()));
    assert_eq!(validate_username(""), Err("API_VALIDATION: 'username' no puede estar vacio".to_string()));
    assert_eq!(validate_message(&"m".repeat(12000)), Ok(()));
    assert_eq!(validate_message(&"m".repeat(12001)), Err("API_VALIDATION: 'message' excede longitud maxima (12000)".to_string()));
    assert_eq!(validate_password("", "api_key"), Err("API_VALIDATION: 'api_key' no puede estar vacio".to_string()));
}

#[test]
fn sort_keys_and_limits_are_normalized() {
    assert_eq!(normalize_sort_by(None), Ok("memory".to_string()));
    assert_eq!(normalize_sort_by(Some("  CPU ".to_string())), Ok("cpu".to_string()));
    assert_eq!(
        normalize_sort_by(Some("disk".to_string())),
        Err("API_VALIDATION: 'sort_by' debe ser uno de: cpu, memory, name".to_string())
    );
    assert_eq!(normalize_limit(None, 20, 100), 20);
    assert_eq!(normalize_limit(Some(0), 20, 100), 1);
    assert_eq!(normalize_limit(Some(500), 20, 100), 100);
}

#[test]
fn retrieval_codes_round_trip() {
    assert_eq!(specialty_code(&DomainSpecialty::SensitiveOps), "sensitive_ops");
    assert_eq!(specialty_id(&DomainSpecialty::Network), "sp_network");
    assert_eq!(specialty_from_code("drivers"), DomainSpecialty::Drivers);
    assert_eq!(specialty_from_code("general"), DomainSpecialty::Unknown);
    assert_eq!(specialty_from_specialty_id("sp_sp_audit"), DomainSpecialty::Audit);
    assert_eq!(query_category_code(&QueryCategory::SymptomBased), "symptom_based");
    assert_eq!(embedding_dim(), 64);
    assert_eq!(normalize_text("  ¿Qué   pasa con el DNS?  "), "que pasa con el dns");
}
