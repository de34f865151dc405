//! From the contexts found for a question to a prompt that grounds the
//! answer in them, and to the list of sources shown beside the answer.
//!
//! The contexts are numbered from 1 in the order in which they were found.
//! The prompt shows each under its number and tells the generator to use
//! nothing else and to cite by number; the list of sources carries the same
//! numbers, so that a citation in the answer leads to its evidence.

use vstd::prelude::*;
use crate::models::{ChatResponse, HybridContext, SourceReference};
use crate::text::{
    decimal_digits, from_chars, join, joined, push_decimal, to_chars, trimmed, trimmed_span,
};

verus! {

/// How many contexts are asked for.
pub const TOP_K: usize = 5;

/// How many characters of a source are shown.
pub const PREVIEW_LENGTH: usize = 150;

/// `content` with every line break turned into a space.
pub open spec fn unbroken(content: Seq<char>) -> Seq<char> {
    Seq::new(
        content.len(),
        |i: int|
            if content[i] == '\n' {
                ' '
            } else {
                content[i]
            },
    )
}

/// `content` on one line, without white space around it.
pub open spec fn normalized(content: Seq<char>) -> Seq<char> {
    trimmed(unbroken(content))
}

/// What is shown of a source: all of it, or its first characters and an
/// ellipsis where it is longer than [`PREVIEW_LENGTH`].
pub open spec fn preview(content: Seq<char>) -> Seq<char> {
    if content.len() > PREVIEW_LENGTH {
        content.take(PREVIEW_LENGTH as int) + "..."@
    } else {
        content
    }
}

/// The relevance, in hundredths, given to the source at `rank`, counted from
/// 0: it stands in for a score that the search does not supply, starts at
/// 100 and falls by 10 with each rank, down to 0.
pub open spec fn rank_relevance(rank: nat) -> u8 {
    if rank >= 10 {
        0
    } else {
        (100 - 10 * rank) as u8
    }
}

/// What the prompt shows of one context.
pub open spec fn source_block(index: nat, content: Seq<char>, concepts: Seq<char>) -> Seq<char> {
    "FUENTE ["@ + decimal_digits(index) + "]:\n- Contenido: "@ + content
        + "\n- Conceptos Relacionados: ["@ + concepts + "]\n\n"@
}

/// What the prompt shows of the context at `rank`.
pub open spec fn context_block(context: HybridContext, rank: nat) -> Seq<char> {
    source_block(
        rank + 1,
        normalized(context.content@),
        joined(context.connected_entities@, ", "@),
    )
}

/// What the prompt shows of all contexts, in their order.
pub open spec fn context_text(contexts: Seq<HybridContext>) -> Seq<char>
    decreases contexts.len(),
{
    if contexts.len() == 0 {
        Seq::empty()
    } else {
        context_text(contexts.drop_last()) + context_block(
            contexts.last(),
            (contexts.len() - 1) as nat,
        )
    }
}

/// Whether `source` is the reference to `context`, found at `rank`.
pub open spec fn refers_to(source: SourceReference, context: HybridContext, rank: nat) -> bool {
    &&& source.index == rank + 1
    &&& source.chunk_id@ == context.chunk_id@
    &&& source.short_content@ == preview(normalized(context.content@))
    &&& source.relevance_percent == rank_relevance(rank)
    &&& source.concepts@ == context.connected_entities@
}

/// The instructions that open the prompt: answer from the sources below and
/// from nothing else, cite a source by its number after each statement, and
/// put several numbers side by side where a statement rests on several.
pub open spec fn instructions() -> Seq<char> {
    "Eres 'La Muralla', un asistente de inteligencia cognitiva avanzado que responde basándose en un Grafo de Conocimiento.\n        \n        INSTRUCCIONES PRINCIPALES:\n        1. Responde a la pregunta del usuario basándote EXCLUSIVAMENTE en las FUENTES proporcionadas abajo.\n        2. NO utilices conocimiento externo si no está respaldado por el contexto.\n        3. CITA SIEMPRE las fuentes al final de cada afirmación usando el formato [n], donde n es el número de la fuente.\n           - Ejemplo: \"El paciente presenta fiebre alta [1] y fatiga crónica [2].\"\n        4. Si combinas información de varias fuentes, usa [1][3].\n        5. Usa formato Markdown para estructurar la respuesta (negritas, listas, encabezados).\n        6. Si el contexto es insuficiente, dilo claramente.\n        \n        CONTEXTO RECUPERADO:\n        "@
}

/// What closes the prompt.
pub open spec fn closing() -> Seq<char> {
    "\n        "@
}

/// The whole prompt around `context`.
pub open spec fn system_prompt(context: Seq<char>) -> Seq<char> {
    instructions() + context + closing()
}

/// A source is shown whole unless it is longer than [`PREVIEW_LENGTH`]; a
/// longer one is cut to its first [`PREVIEW_LENGTH`] characters, and three
/// dots follow.
pub proof fn lemma_preview_cuts_only_long_content(content: Seq<char>)
    ensures
        content.len() <= PREVIEW_LENGTH ==> preview(content) == content,
        content.len() > PREVIEW_LENGTH ==> {
            &&& preview(content).len() == PREVIEW_LENGTH + 3
            &&& preview(content).take(PREVIEW_LENGTH as int) == content.take(PREVIEW_LENGTH as int)
            &&& preview(content).skip(PREVIEW_LENGTH as int) == seq!['.', '.', '.']
        },
{
    reveal_strlit("...");
}

/// The sources carry the numbers 1, 2, 3 and so on, in the order of the
/// contexts, and are as many as the contexts.
pub proof fn lemma_sources_numbered_in_order(
    sources: Seq<SourceReference>,
    contexts: Seq<HybridContext>,
)
    requires
        sources.len() == contexts.len(),
        forall|i: int| 0 <= i < contexts.len() ==> refers_to(#[trigger] sources[i], contexts[i], i as nat),
    ensures
        forall|i: int| 0 <= i < sources.len() ==> (#[trigger] sources[i]).index == i + 1,
        forall|i: int, j: int|
            0 <= i < j < sources.len() ==> (#[trigger] sources[i]).index < (#[trigger] sources[j]).index,
        forall|i: int, j: int|
            0 <= i < j < sources.len() ==> (#[trigger] sources[i]).relevance_percent >= (#[trigger] sources[j]).relevance_percent,
{
}

/// The prompt's text on the contexts and the list of sources.
pub struct Citations {
    pub context_text: String,
    pub sources: Vec<SourceReference>,
}

fn copy_of(texts: &Vec<String>) -> (copy: Vec<String>)
    ensures
        copy@ == texts@,
{
    let mut copy: Vec<String> = Vec::new();
    let mut i: usize = 0;
    while i < texts.len()
        invariant
            i <= texts.len(),
            copy@ == texts@.take(i as int),
        decreases texts.len() - i,
    {
        copy.push(texts[i].clone());
        i += 1;
    }
    copy
}

/// `content` on one line and without white space around it, as characters.
fn normalize(content: &str) -> (chars: Vec<char>)
    ensures
        chars@ == normalized(content@),
{
    let raw = to_chars(content);
    let mut line: Vec<char> = Vec::new();
    let mut i: usize = 0;
    while i < raw.len()
        invariant
            i <= raw.len(),
            raw@ == content@,
            line@ == unbroken(content@).take(i as int),
        decreases raw.len() - i,
    {
        let c = raw[i];
        line.push(
            if c == '\n' {
                ' '
            } else {
                c
            },
        );
        i += 1;
    }
    proof {
        assert(unbroken(content@).take(raw@.len() as int) =~= unbroken(content@));
    }
    let (a, b) = trimmed_span(&line, 0, line.len());
    let mut chars: Vec<char> = Vec::new();
    let mut k: usize = a;
    while k < b
        invariant
            a <= k <= b <= line.len(),
            chars@ == line@.subrange(a as int, k as int),
        decreases b - k,
    {
        chars.push(line[k]);
        k += 1;
    }
    chars
}

/// What is shown of `content`.
fn preview_of(content: &Vec<char>) -> (shown: String)
    ensures
        shown@ == preview(content@),
{
    if content.len() > PREVIEW_LENGTH {
        let mut shown = from_chars(content, 0, PREVIEW_LENGTH);
        shown.append("...");
        shown
    } else {
        from_chars(content, 0, content.len())
    }
}

/// The relevance given to the source at `rank`.
fn relevance_at(rank: usize) -> (percent: u8)
    ensures
        percent == rank_relevance(rank as nat),
{
    if rank >= 10 {
        0
    } else {
        let fallen: u8 = if rank == 0 {
            0
        } else if rank == 1 {
            10
        } else if rank == 2 {
            20
        } else if rank == 3 {
            30
        } else if rank == 4 {
            40
        } else if rank == 5 {
            50
        } else if rank == 6 {
            60
        } else if rank == 7 {
            70
        } else if rank == 8 {
            80
        } else {
            90
        };
        100 - fallen
    }
}

/// Numbers the contexts in their order and builds, side by side, the text
/// that the prompt shows of them and the list of sources for display.
pub fn assemble_citations(contexts: &Vec<HybridContext>) -> (citations: Citations)
    ensures
        citations.context_text@ == context_text(contexts@),
        citations.sources@.len() == contexts@.len(),
        forall|i: int|
            0 <= i < contexts@.len() ==> refers_to(
                #[trigger] citations.sources@[i],
                contexts@[i],
                i as nat,
            ),
{
    let mut text = String::new();
    let mut sources: Vec<SourceReference> = Vec::new();
    let mut i: usize = 0;
    while i < contexts.len()
        invariant
            i <= contexts.len(),
            text@ == context_text(contexts@.take(i as int)),
            sources@.len() == i,
            forall|j: int|
                0 <= j < i ==> refers_to(#[trigger] sources@[j], contexts@[j], j as nat),
        decreases contexts.len() - i,
    {
        let context = &contexts[i];
        let content = normalize(context.content.as_str());
        let content_text = from_chars(&content, 0, content.len());
        let concepts = join(&context.connected_entities, ", ");
        text.append("FUENTE [");
        push_decimal(&mut text, i + 1);
        text.append("]:\n- Contenido: ");
        text.append(content_text.as_str());
        text.append("\n- Conceptos Relacionados: [");
        text.append(concepts.as_str());
        text.append("]\n\n");
        proof {
            assert(contexts@.take(i + 1).drop_last() =~= contexts@.take(i as int));
        }
        sources.push(
            SourceReference {
                index: i + 1,
                chunk_id: context.chunk_id.clone(),
                short_content: preview_of(&content),
                relevance_percent: relevance_at(i),
                concepts: copy_of(&context.connected_entities),
            },
        );
        i += 1;
    }
    proof {
        assert(contexts@.take(contexts@.len() as int) =~= contexts@);
    }
    Citations { context_text: text, sources }
}

/// The prompt that grounds an answer in the contexts shown in
/// `context_text`.
pub fn build_system_prompt(context_text: &str) -> (prompt: String)
    ensures
        prompt@ == system_prompt(context_text@),
{
    let mut prompt = String::from_str(
        "Eres 'La Muralla', un asistente de inteligencia cognitiva avanzado que responde basándose en un Grafo de Conocimiento.\n        \n        INSTRUCCIONES PRINCIPALES:\n        1. Responde a la pregunta del usuario basándote EXCLUSIVAMENTE en las FUENTES proporcionadas abajo.\n        2. NO utilices conocimiento externo si no está respaldado por el contexto.\n        3. CITA SIEMPRE las fuentes al final de cada afirmación usando el formato [n], donde n es el número de la fuente.\n           - Ejemplo: \"El paciente presenta fiebre alta [1] y fatiga crónica [2].\"\n        4. Si combinas información de varias fuentes, usa [1][3].\n        5. Usa formato Markdown para estructurar la respuesta (negritas, listas, encabezados).\n        6. Si el contexto es insuficiente, dilo claramente.\n        \n        CONTEXTO RECUPERADO:\n        ",
    );
    prompt.append(context_text);
    prompt.append("\n        ");
    prompt
}

/// The answer of the generator, as it came, with the sources it was given.
pub fn chat_response(answer: String, sources: Vec<SourceReference>) -> (response: ChatResponse)
    ensures
        response.response == answer,
        response.sources == sources,
{
    ChatResponse { response: answer, sources }
}

} // verus!
