use la_muralla::errors::AppError;
use la_muralla::upload::{closing_line, framed, FieldKind, UploadIntake, MIN_CONTENT_BYTES};

#[test]
fn fields_by_name() {
    assert_eq!(UploadIntake::field_kind("file"), FieldKind::File);
    assert_eq!(UploadIntake::field_kind("content"), FieldKind::Content);
    assert_eq!(UploadIntake::field_kind("File"), FieldKind::Other);
    assert_eq!(UploadIntake::field_kind(""), FieldKind::Other);
    assert_eq!(UploadIntake::field_kind("metadata"), FieldKind::Other);
}

#[test]
fn file_is_read_and_turned_into_text() {
    let mut intake = UploadIntake::new();
    assert_eq!(intake.file_named(Some("notas.txt")), "📂 Leyendo archivo: notas.txt...");
    let heard = intake.file_bytes(Ok("un texto de prueba".as_bytes()));
    assert_eq!(heard.lines, vec!["📄 Parseando contenido..."]);
    assert!(!heard.stop);
    assert_eq!(intake.finish(), Ok("un texto de prueba".to_string()));
}

#[test]
fn file_without_a_name_goes_as_file() {
    let mut intake = UploadIntake::new();
    assert_eq!(intake.file_named(None), "📂 Leyendo archivo: file...");
    let heard = intake.file_bytes(Ok(b"hola"));
    assert!(heard.stop);
    assert_eq!(
        heard.lines,
        vec!["📄 Parseando contenido...", "❌ Error parseando: Formato no soportado: file"]
    );
}

#[test]
fn file_that_cannot_be_read_ends_the_upload() {
    let mut intake = UploadIntake::new();
    intake.file_named(Some("carta.docx"));
    let heard = intake.file_bytes(Ok(b"no es un zip"));
    assert!(heard.stop);
    assert_eq!(
        heard.lines,
        vec!["📄 Parseando contenido...", "❌ Error parseando: No es un archivo ZIP/DOCX válido"]
    );
}

#[test]
fn bytes_that_do_not_arrive_end_the_upload() {
    let mut intake = UploadIntake::new();
    intake.file_named(Some("grande.pdf"));
    let heard = intake.file_bytes(Err("field size exceeded"));
    assert!(heard.stop);
    assert_eq!(
        heard.lines,
        vec!["❌ Error subida: Error parsing `multipart/form-data` request: field size exceeded"]
    );
}

#[test]
fn text_arrives_directly() {
    let mut intake = UploadIntake::new();
    let heard = intake.content_text(Some("texto directo"));
    assert_eq!(heard.lines, vec!["📝 Recibido texto directo..."]);
    assert!(!heard.stop);
    assert_eq!(intake.finish(), Ok("texto directo".to_string()));
}

#[test]
fn empty_text_is_passed_over() {
    let mut intake = UploadIntake::new();
    intake.file_named(Some("notas.txt"));
    intake.file_bytes(Ok(b"del archivo"));
    let heard = intake.content_text(Some(""));
    assert!(heard.lines.is_empty() && !heard.stop);
    let heard = intake.content_text(None);
    assert!(heard.lines.is_empty() && !heard.stop);
    assert_eq!(intake.finish(), Ok("del archivo".to_string()));
}

#[test]
fn what_comes_later_replaces_what_came_before() {
    let mut intake = UploadIntake::new();
    intake.content_text(Some("primero el texto"));
    intake.file_named(Some("notas.md"));
    intake.file_bytes(Ok(b"luego el archivo"));
    intake.content_text(Some("y otro texto"));
    assert_eq!(intake.finish(), Ok("y otro texto".to_string()));
}

#[test]
fn short_content_is_refused() {
    assert_eq!(MIN_CONTENT_BYTES, 5);
    let refused = Err("❌ Error: Contenido vacío o muy corto.".to_string());
    assert_eq!(UploadIntake::new().finish(), refused);
    for short in ["abcd", "   abcd   \n", " \n\t ", "ñ"] {
        let mut intake = UploadIntake::new();
        intake.content_text(Some(short));
        assert_eq!(intake.finish(), refused, "{:?}", short);
    }
    for long in ["abcde", "  abcde ", "ñññ", "a b c"] {
        let mut intake = UploadIntake::new();
        intake.content_text(Some(long));
        assert_eq!(intake.finish(), Ok(long.to_string()), "{:?}", long);
    }
}

#[test]
fn last_line() {
    assert_eq!(closing_line(&Ok(())), "DONE");
    assert_eq!(
        closing_line(&Err(AppError::DatabaseError("gone".into()))),
        "❌ Error Crítico: Database error: gone"
    );
}

#[test]
fn every_line_ends_in_a_line_break() {
    assert_eq!(framed("DONE"), "DONE\n");
    assert_eq!(framed(""), "\n");
}

#[test]
fn outcome_of_a_file_is_taken_as_it_is() {
    let mut intake = UploadIntake::new();
    let heard = intake.file_text(Ok("texto del archivo".to_string()));
    assert_eq!(heard.lines, vec!["📄 Parseando contenido..."]);
    assert!(!heard.stop);
    let heard = intake.file_text(Err(AppError::ParseError("Fallo al cargar PDF: roto".into())));
    assert_eq!(
        heard.lines,
        vec!["📄 Parseando contenido...", "❌ Error parseando: Fallo al cargar PDF: roto"]
    );
    assert!(heard.stop);
    // the content from before the failure stays
    assert_eq!(intake.finish(), Ok("texto del archivo".to_string()));
}

#[test]
fn failure_of_another_kind_is_told_in_full() {
    let mut intake = UploadIntake::new();
    let heard = intake.file_text(Err(AppError::DatabaseError("gone".into())));
    assert_eq!(
        heard.lines,
        vec!["📄 Parseando contenido...", "❌ Error parseando: Database error: gone"]
    );
    assert!(heard.stop);
}
