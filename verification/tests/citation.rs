use la_muralla::citation::{
    assemble_citations, build_system_prompt, chat_response, PREVIEW_LENGTH, TOP_K,
};
use la_muralla::models::HybridContext;

fn context(id: &str, content: &str, entities: &[&str]) -> HybridContext {
    HybridContext {
        chunk_id: id.to_string(),
        content: content.to_string(),
        connected_entities: entities.iter().map(|e| e.to_string()).collect(),
    }
}

#[test]
fn limits() {
    assert_eq!(TOP_K, 5);
    assert_eq!(PREVIEW_LENGTH, 150);
}

#[test]
fn three_contexts_give_three_sources_in_order() {
    let long = "palabra ".repeat(40);
    let contexts = vec![
        context("c-1", "  La fiebre\nes alta. \n", &["fiebre", "paciente"]),
        context("c-2", &long, &[]),
        context("c-3", "corto", &["uno"]),
    ];
    let citations = assemble_citations(&contexts);
    let sources = &citations.sources;
    assert_eq!(sources.len(), 3);
    assert_eq!(sources.iter().map(|s| s.index).collect::<Vec<_>>(), vec![1, 2, 3]);
    assert_eq!(
        sources.iter().map(|s| s.chunk_id.as_str()).collect::<Vec<_>>(),
        vec!["c-1", "c-2", "c-3"]
    );
    assert_eq!(sources.iter().map(|s| s.relevance_percent).collect::<Vec<_>>(), vec![100, 90, 80]);

    assert_eq!(sources[0].short_content, "La fiebre es alta.");
    assert_eq!(sources[0].concepts, vec!["fiebre", "paciente"]);

    // 40 times 8 characters, less the last space: 319 characters
    assert_eq!(sources[1].short_content.chars().count(), 153);
    assert!(sources[1].short_content.ends_with("..."));
    assert_eq!(&sources[1].short_content[..150], &long[..150]);
    assert!(sources[1].concepts.is_empty());

    assert_eq!(sources[2].short_content, "corto");
    assert!(!sources[2].short_content.ends_with("..."));

    let expected = format!(
        "FUENTE [1]:\n- Contenido: La fiebre es alta.\n- Conceptos Relacionados: [fiebre, paciente]\n\n\
         FUENTE [2]:\n- Contenido: {}\n- Conceptos Relacionados: []\n\n\
         FUENTE [3]:\n- Contenido: corto\n- Conceptos Relacionados: [uno]\n\n",
        long.trim()
    );
    assert_eq!(citations.context_text, expected);
}

#[test]
fn content_of_the_preview_length_is_shown_whole() {
    let exact = "a".repeat(150);
    let over = "a".repeat(151);
    let citations = assemble_citations(&vec![context("x", &exact, &[]), context("y", &over, &[])]);
    assert_eq!(citations.sources[0].short_content, exact);
    assert_eq!(citations.sources[1].short_content, format!("{}...", exact));
}

#[test]
fn preview_counts_characters_after_normalizing() {
    // 149 letters of two bytes each and white space around them
    let content = format!("\n\n{}  \n", "ñ".repeat(149));
    let citations = assemble_citations(&vec![context("x", &content, &[])]);
    assert_eq!(citations.sources[0].short_content, "ñ".repeat(149));
    let longer = format!(" {}\n", "ñ".repeat(200));
    let citations = assemble_citations(&vec![context("x", &longer, &[])]);
    assert_eq!(citations.sources[0].short_content, format!("{}...", "ñ".repeat(150)));
}

#[test]
fn line_breaks_inside_become_spaces() {
    let citations = assemble_citations(&vec![context("x", "uno\ndos\n\ntres", &[])]);
    assert_eq!(citations.sources[0].short_content, "uno dos  tres");
}

#[test]
fn relevance_falls_with_rank_and_stops_at_zero() {
    let contexts: Vec<HybridContext> = (0..12).map(|i| context(&i.to_string(), "x", &[])).collect();
    let citations = assemble_citations(&contexts);
    let relevance: Vec<u8> = citations.sources.iter().map(|s| s.relevance_percent).collect();
    assert_eq!(relevance, vec![100, 90, 80, 70, 60, 50, 40, 30, 20, 10, 0, 0]);
    assert_eq!(citations.sources[11].index, 12);
}

#[test]
fn no_context_gives_no_source() {
    let citations = assemble_citations(&Vec::new());
    assert!(citations.sources.is_empty());
    assert_eq!(citations.context_text, "");
}

#[test]
fn prompt_wraps_the_contexts() {
    let prompt = build_system_prompt("FUENTE [1]:\n- Contenido: x\n- Conceptos Relacionados: []\n\n");
    assert!(prompt.starts_with("Eres 'La Muralla', un asistente"));
    assert!(prompt.contains("EXCLUSIVAMENTE en las FUENTES"));
    assert!(prompt.contains("usando el formato [n]"));
    assert!(prompt.contains("usa [1][3]"));
    assert!(prompt.ends_with(
        "CONTEXTO RECUPERADO:\n        FUENTE [1]:\n- Contenido: x\n- Conceptos Relacionados: []\n\n\n        "
    ));
}

#[test]
fn answer_is_passed_on_as_it_came() {
    let citations = assemble_citations(&vec![context("c-1", "x", &["y"])]);
    let response = chat_response("La respuesta [1].".to_string(), citations.sources);
    assert_eq!(response.response, "La respuesta [1].");
    assert_eq!(response.sources.len(), 1);
    assert_eq!(response.sources[0].index, 1);
    assert_eq!(response.sources[0].chunk_id, "c-1");
}
