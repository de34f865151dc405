use la_muralla::chunker::{chunk_spans, split_text_into_chunks, CHUNK_OVERLAP, CHUNK_SIZE};

fn covered(spans: &[(usize, usize)], n: usize) -> bool {
    let mut seen = vec![false; n];
    for &(from, to) in spans {
        for k in from..to {
            seen[k] = true;
        }
    }
    seen.iter().all(|&s| s)
}

#[test]
fn sizes_are_as_documented() {
    assert_eq!(CHUNK_SIZE, 1500);
    assert_eq!(CHUNK_OVERLAP, 200);
}

#[test]
fn empty_text_has_no_chunk() {
    assert!(split_text_into_chunks("").is_empty());
    assert!(chunk_spans(&Vec::new()).is_empty());
}

#[test]
fn one_character_is_one_chunk() {
    assert_eq!(split_text_into_chunks("a"), vec!["a".to_string()]);
}

#[test]
fn short_text_starts_with_itself() {
    let text = "hola mundo";
    let chunks = split_text_into_chunks(text);
    assert_eq!(chunks[0], text);
    // the start then moves one character at a time to the end of the text
    assert_eq!(chunks.len(), 10);
    assert_eq!(chunks[1], "ola mundo");
    assert_eq!(chunks[9], "o");
}

#[test]
fn three_characters_are_three_chunks() {
    assert_eq!(chunk_spans(&vec![false; 3]), vec![(0, 3), (1, 3), (2, 3)]);
    assert_eq!(
        split_text_into_chunks("abc"),
        vec!["abc".to_string(), "bc".to_string(), "c".to_string()]
    );
}

#[test]
fn text_of_the_size_limit_is_not_cut() {
    let text = "x".repeat(1500);
    let chunks = split_text_into_chunks(&text);
    assert_eq!(chunks[0], text);
    // 1500 - 200 = 1300: the second chunk holds the last 200 characters
    assert_eq!(chunks[1].chars().count(), 200);
    assert_eq!(chunks.len(), 1 + 200);
}

#[test]
fn long_word_is_cut_at_the_size_limit() {
    let text = "x".repeat(3000);
    let spans = chunk_spans(&vec![false; 3000]);
    assert!(spans.len() >= 2);
    assert_eq!(spans[0], (0, 1500));
    assert_eq!(spans[1], (1300, 2800));
    assert_eq!(spans[2], (2600, 3000));
    assert_eq!(spans[3], (2800, 3000));
    assert_eq!(spans[4], (2801, 3000));
    assert_eq!(spans.len(), 3 + 200);
    assert_eq!(*spans.last().unwrap(), (2999, 3000));
    assert!(covered(&spans, 3000));

    let chunks = split_text_into_chunks(&text);
    assert_eq!(chunks.len(), spans.len());
    assert_eq!(chunks[0].len(), 1500);
    assert_eq!(chunks[1].len(), 1500);
    assert_eq!(chunks[2].len(), 400);
}

#[test]
fn segment_ends_in_front_of_the_last_white_space_in_reach() {
    // white space at 1000 and at 1400; the text goes on behind 1500
    let mut ws = vec![false; 2000];
    ws[1000] = true;
    ws[1400] = true;
    let spans = chunk_spans(&ws);
    assert_eq!(spans[0], (0, 1400));
    // 1400 - 200 = 1200 characters further
    assert_eq!(spans[1].0, 1200);
    // from 1200 the end of the text is in reach
    assert_eq!(spans[1], (1200, 2000));
    assert!(covered(&spans, 2000));
}

#[test]
fn white_space_right_behind_the_limit_keeps_the_segment_whole() {
    let mut ws = vec![false; 1600];
    ws[1500] = true;
    assert_eq!(chunk_spans(&ws)[0], (0, 1500));
}

#[test]
fn white_space_at_the_start_alone_does_not_count() {
    let mut ws = vec![false; 1600];
    ws[0] = true;
    assert_eq!(chunk_spans(&ws)[0], (0, 1500));
}

#[test]
fn short_segment_moves_on_by_one() {
    // the only white space in reach is at 150, fewer than the overlap
    let mut ws = vec![false; 1700];
    ws[150] = true;
    let spans = chunk_spans(&ws);
    assert_eq!(spans[0], (0, 150));
    assert_eq!(spans[1].0, 1);
    assert!(covered(&spans, 1700));
}

#[test]
fn words_are_kept_whole() {
    let text = "palabra ".repeat(400);
    assert_eq!(text.chars().count(), 3200);
    let chunks = split_text_into_chunks(&text);
    // 1500 falls inside a word: the segment ends on the white space at 1495
    assert_eq!(chunks[0].chars().count(), 1495);
    assert!(chunks[0].ends_with("palabra"));
    assert!(chunks[0].starts_with("palabra "));
}

#[test]
fn chunks_cover_the_text_in_order() {
    let text: String = (0..5000)
        .map(|i| if i % 7 == 3 { ' ' } else { char::from(b'a' + (i % 26) as u8) })
        .collect();
    let chars: Vec<char> = text.chars().collect();
    let ws: Vec<bool> = chars.iter().map(|c| c.is_whitespace()).collect();
    let spans = chunk_spans(&ws);
    let chunks = split_text_into_chunks(&text);
    assert_eq!(spans.len(), chunks.len());
    assert_eq!(spans[0].0, 0);
    assert_eq!(spans.last().unwrap().1, 5000);
    for i in 0..spans.len() {
        let (from, to) = spans[i];
        assert!(from < to && to - from <= CHUNK_SIZE);
        let part: String = chars[from..to].iter().collect();
        assert_eq!(chunks[i], part);
        if i + 1 < spans.len() {
            assert!(spans[i + 1].0 > from);
            assert!(spans[i + 1].0 <= to);
        }
    }
    assert!(covered(&spans, 5000));
}

#[test]
fn characters_are_counted_not_bytes() {
    let text = "ñ".repeat(1600);
    let chunks = split_text_into_chunks(&text);
    assert_eq!(chunks[0].chars().count(), 1500);
    assert_eq!(chunks[0].len(), 3000);
}

#[test]
fn unicode_white_space_breaks_a_segment() {
    // U+00A0, a space that does not break a line, is white space all the same
    let mut text = "x".repeat(1000);
    text.push('\u{a0}');
    text.push_str(&"y".repeat(999));
    let chunks = split_text_into_chunks(&text);
    assert_eq!(chunks[0], "x".repeat(1000));
}
