use sha2::Digest;
use kernelia::ingest::{
    chunk_markdown, is_indexable_markdown, parse_markdown_text, specialty_id_from_code, split_frontmatter,
    supported_source_kinds, to_hex,
};

const SAMPLE: &str = "---
title: DNS Recovery Playbook
slug: network-dns-recovery
specialty: network
doc_type: playbook
entity_key: dns
source_kind: curated_markdown
status: active
---
# Contexto
El problema aplica cuando hay resolucion inconsistente.

# Verificacion
Validar gateway y ejecutar consulta DNS.
";

#[test]
fn parses_frontmatter_and_chunks_document() {
    let doc = parse_markdown_text(SAMPLE, "kernelia_rag_ingest_test.md", "kernelia_rag_ingest_test.md".to_string())
        .expect("document parsed");
    assert_eq!(doc.frontmatter.specialty, "network");
    assert_eq!(doc.frontmatter.doc_type, "playbook");
    assert_eq!(doc.chunks.len(), 2);
}

#[test]
fn documents_keep_summary_hash_and_anchors() {
    let doc = parse_markdown_text(SAMPLE, "x.md", "x.md".to_string()).unwrap();
    assert_eq!(doc.summary, "El problema aplica cuando hay resolucion inconsistente.");
    assert_eq!(doc.content_hash.len(), 64);
    assert_eq!(doc.frontmatter.entity_key.as_deref(), Some("dns"));
    assert_eq!(doc.chunks[0].title_anchor, "Contexto");
    assert_eq!(doc.chunks[1].chunk_index, 1);
    assert_eq!(doc.chunks[1].chunk_text, "Validar gateway y ejecutar consulta DNS.");
    assert_eq!(doc.chunks[1].entity_key.as_deref(), Some("dns"));
}

#[test]
fn frontmatter_errors_are_reported() {
    assert_eq!(split_frontmatter("sin cabecera").unwrap_err(), "Documento sin frontmatter YAML-like inicial");
    assert_eq!(split_frontmatter("---\ntitle: x\n").unwrap_err(), "Frontmatter no cerrado correctamente");
    let err = parse_markdown_text("---\nslug: s\n---\nbody", "doc.md", String::new()).unwrap_err();
    assert_eq!(err, "Falta title en doc.md");
    let (pairs, body) = split_frontmatter("---\r\na: 1\na: 2 \n---\n\n cuerpo \n").unwrap();
    assert_eq!(pairs, vec![("a".to_string(), "1".to_string()), ("a".to_string(), "2".to_string())]);
    assert_eq!(body, "cuerpo");
}

#[test]
fn chunks_split_at_the_size_limit() {
    let line = "x".repeat(600);
    let body = format!("{}\n{}\n\n## Fin\nok", line, line);
    let chunks = chunk_markdown(&body, None);
    assert_eq!(chunks.len(), 3);
    assert_eq!(chunks[0].title_anchor, "overview");
    assert_eq!(chunks[1].chunk_text.len(), 600);
    assert_eq!(chunks[2].title_anchor, "Fin");
    assert!(chunks.iter().all(|c| c.entity_key.is_none()));
}

#[test]
fn corpus_helpers() {
    assert!(is_indexable_markdown(" --- \nx"));
    assert!(!is_indexable_markdown("# titulo"));
    assert_eq!(specialty_id_from_code("  Network "), "sp_network");
    assert_eq!(supported_source_kinds(), &["markdown", "json", "seeded_catalog"]);
}

#[test]
fn bytes_are_written_as_lowercase_hex() {
    assert_eq!(to_hex(&[0x00, 0xab, 0x0f, 0xff]), "00ab0fff");
    assert_eq!(to_hex(&[]), "");
}

#[test]
fn content_hash_is_sha256_of_the_body() {
    let doc = parse_markdown_text(SAMPLE, "x.md", "x.md".to_string()).unwrap();
    let (_, body) = split_frontmatter(SAMPLE).unwrap();
    let mut hasher = sha2::Sha256::new();
    hasher.update(body.as_bytes());
    let expected: String = hasher.finalize().iter().map(|b| format!("{:02x}", b)).collect();
    assert_eq!(doc.content_hash, expected);
    assert_ne!(doc.content_hash, body);
}
