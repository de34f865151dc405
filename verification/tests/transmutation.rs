use la_muralla::errors::AppError;
use la_muralla::transmutation::{failure, DocumentTransmuter, SupportedFormat, HTML_WIDTH};
use lopdf::content::{Content, Operation};
use lopdf::{Dictionary, Document, Object, Stream};
use std::io::Write;

fn zipped(entries: &[(&str, &str)]) -> Vec<u8> {
    let mut writer = zip::ZipWriter::new(std::io::Cursor::new(Vec::new()));
    for (name, content) in entries {
        writer.start_file(*name, zip::write::SimpleFileOptions::default()).unwrap();
        writer.write_all(content.as_bytes()).unwrap();
    }
    writer.finish().unwrap().into_inner()
}

fn pdf_of(pages: &[&str]) -> Vec<u8> {
    let mut doc = Document::with_version("1.5");
    let pages_id = doc.new_object_id();
    let mut font = Dictionary::new();
    font.set("Type", "Font");
    font.set("Subtype", "Type1");
    font.set("BaseFont", "Courier");
    let font_id = doc.add_object(font);
    let mut fonts = Dictionary::new();
    fonts.set("F1", font_id);
    let mut resources = Dictionary::new();
    resources.set("Font", fonts);
    let resources_id = doc.add_object(resources);
    let mut kids: Vec<Object> = Vec::new();
    for text in pages {
        let content = Content {
            operations: vec![
                Operation::new("BT", vec![]),
                Operation::new("Tf", vec!["F1".into(), 12.into()]),
                Operation::new("Td", vec![100.into(), 600.into()]),
                Operation::new("Tj", vec![Object::string_literal(*text)]),
                Operation::new("ET", vec![]),
            ],
        };
        let content_id = doc.add_object(Stream::new(Dictionary::new(), content.encode().unwrap()));
        let mut page = Dictionary::new();
        page.set("Type", "Page");
        page.set("Parent", pages_id);
        page.set("Contents", content_id);
        kids.push(doc.add_object(page).into());
    }
    let mut tree = Dictionary::new();
    tree.set("Type", "Pages");
    tree.set("Count", pages.len() as i64);
    tree.set("Kids", kids);
    tree.set("Resources", resources_id);
    tree.set(
        "MediaBox",
        vec![Object::from(0), Object::from(0), Object::from(595), Object::from(842)],
    );
    doc.objects.insert(pages_id, Object::Dictionary(tree));
    let mut catalog = Dictionary::new();
    catalog.set("Type", "Catalog");
    catalog.set("Pages", pages_id);
    let catalog_id = doc.add_object(catalog);
    doc.trailer.set("Root", catalog_id);
    let mut bytes = Vec::new();
    doc.save_to(&mut bytes).unwrap();
    bytes
}

fn parse_error(outcome: Result<String, AppError>) -> String {
    match outcome {
        Err(AppError::ParseError(message)) => message,
        other => panic!("{:?}", other),
    }
}

#[test]
fn formats_by_extension() {
    assert_eq!(SupportedFormat::from_filename("informe.pdf"), Some(SupportedFormat::PDF));
    assert_eq!(SupportedFormat::from_filename("carta.docx"), Some(SupportedFormat::DOCX));
    assert_eq!(SupportedFormat::from_filename("cuentas.xlsx"), Some(SupportedFormat::XLSX));
    assert_eq!(SupportedFormat::from_filename("cuentas.xls"), Some(SupportedFormat::XLSX));
    assert_eq!(SupportedFormat::from_filename("tabla.csv"), Some(SupportedFormat::CSV));
    assert_eq!(SupportedFormat::from_filename("pagina.html"), Some(SupportedFormat::HTML));
    assert_eq!(SupportedFormat::from_filename("pagina.htm"), Some(SupportedFormat::HTML));
    assert_eq!(SupportedFormat::from_filename("notas.txt"), Some(SupportedFormat::PlainText));
    assert_eq!(SupportedFormat::from_filename("LEEME.md"), Some(SupportedFormat::PlainText));
    assert_eq!(SupportedFormat::from_filename("datos.json"), Some(SupportedFormat::PlainText));
    assert_eq!(SupportedFormat::from_filename("datos.xml"), Some(SupportedFormat::PlainText));
}

#[test]
fn extension_in_any_case() {
    assert_eq!(SupportedFormat::from_filename("INFORME.PDF"), Some(SupportedFormat::PDF));
    assert_eq!(SupportedFormat::from_filename("Carta.DocX"), Some(SupportedFormat::DOCX));
    assert_eq!(SupportedFormat::from_extension("pdf"), Some(SupportedFormat::PDF));
    // an extension is handed over in lower case
    assert_eq!(SupportedFormat::from_extension("PDF"), None);
}

#[test]
fn names_without_a_known_extension() {
    for name in [
        "", "informe", "informe.", ".pdf", "..", ".", "a/..", "dir.pdf/informe", "informe.exe",
        "informe.pdf.bak", "pdf", "informe.pdfx", "informe. pdf", "/", "a.pdf/..", "archivo.p df",
    ] {
        assert_eq!(SupportedFormat::from_filename(name), None, "{:?}", name);
    }
}

#[test]
fn only_the_last_component_and_the_last_dot_count() {
    assert_eq!(SupportedFormat::from_filename("a.b/c.d/informe.tar.csv"), Some(SupportedFormat::CSV));
    assert_eq!(SupportedFormat::from_filename("/tmp/.oculto.txt"), Some(SupportedFormat::PlainText));
    assert_eq!(SupportedFormat::from_filename("..pdf"), Some(SupportedFormat::PDF));
    assert_eq!(SupportedFormat::from_filename("informe.pdf/"), Some(SupportedFormat::PDF));
    assert_eq!(SupportedFormat::from_filename("informe.pdf/."), Some(SupportedFormat::PDF));
    assert_eq!(SupportedFormat::from_filename("informe.pdf//./"), Some(SupportedFormat::PDF));
    assert_eq!(SupportedFormat::from_filename("./informe.pdf"), Some(SupportedFormat::PDF));
}

#[test]
fn extension_agrees_with_std_paths() {
    let known = |ext: &str| match ext {
        "pdf" => Some(SupportedFormat::PDF),
        "docx" => Some(SupportedFormat::DOCX),
        "xlsx" | "xls" => Some(SupportedFormat::XLSX),
        "csv" => Some(SupportedFormat::CSV),
        "html" | "htm" => Some(SupportedFormat::HTML),
        "txt" | "md" | "json" | "xml" => Some(SupportedFormat::PlainText),
        _ => None,
    };
    let parts = ["", "a", ".", "..", "/", "pdf", ".pdf", "x.pdf", "x.CSV", "a.b", ".txt.", "b/", "/."];
    for first in parts {
        for second in parts {
            for third in parts {
                let name = format!("{}{}{}", first, second, third);
                let expected = std::path::Path::new(&name)
                    .extension()
                    .and_then(|e| e.to_str())
                    .map(|e| e.to_lowercase())
                    .and_then(|e| known(&e));
                assert_eq!(SupportedFormat::from_filename(&name), expected, "{:?}", name);
            }
        }
    }
}

#[test]
fn unknown_format_is_refused_by_name() {
    assert_eq!(
        DocumentTransmuter::transmute("foto.png", b"\x89PNG"),
        Err(AppError::ParseError("Formato no soportado: foto.png".into()))
    );
    assert_eq!(
        DocumentTransmuter::transmute("sin_extension", b"hola"),
        Err(AppError::ParseError("Formato no soportado: sin_extension".into()))
    );
}

#[test]
fn plain_text_is_taken_as_it_is() {
    assert_eq!(
        DocumentTransmuter::transmute("notas.txt", "Hola, ¿qué tal?\n".as_bytes()),
        Ok("Hola, ¿qué tal?\n".to_string())
    );
    assert_eq!(DocumentTransmuter::transmute("vacio.md", b""), Ok(String::new()));
}

#[test]
fn plain_text_must_be_utf8() {
    let message = parse_error(DocumentTransmuter::transmute("notas.txt", b"hola \xff mundo"));
    let reason = String::from_utf8(b"hola \xff mundo".to_vec()).unwrap_err().to_string();
    assert_eq!(message, format!("Error UTF-8: {}", reason));
}

#[test]
fn table_is_read_with_its_header() {
    let data = b"nombre,edad\nAna,30\n\"Luis, hijo\",7\n";
    assert_eq!(
        DocumentTransmuter::transmute("gente.csv", data),
        Ok("nombre | edad\n---\nAna | 30\nLuis, hijo | 7\n".to_string())
    );
}

#[test]
fn record_that_cannot_be_read_is_left_out() {
    // the second record has a field too many
    let data = b"a,b\n1,2,3\n4,5\n";
    assert_eq!(
        DocumentTransmuter::transmute("tabla.csv", data),
        Ok("a | b\n---\n4 | 5\n".to_string())
    );
    // a header that is not UTF-8 is left out too
    let data = b"a,\xff\n1,2\n";
    assert_eq!(DocumentTransmuter::transmute("tabla.csv", data), Ok("1 | 2\n".to_string()));
}

#[test]
fn empty_table_has_an_empty_header() {
    assert_eq!(DocumentTransmuter::transmute("tabla.csv", b""), Ok("\n---\n".to_string()));
}

#[test]
fn tables_put_together() {
    let header = Some(vec!["a".to_string(), "b".to_string()]);
    let records = vec![Some(vec!["1".to_string()]), None, Some(vec![])];
    assert_eq!(DocumentTransmuter::csv_text(&header, &records), "a | b\n---\n1\n\n");
    assert_eq!(DocumentTransmuter::csv_text(&None, &Vec::new()), "");
}

#[test]
fn page_is_rendered_as_text() {
    assert_eq!(HTML_WIDTH, 80);
    let page = "<html><body><h1>Titulo</h1><p>Un <b>parrafo</b> corto.</p></body></html>";
    let text = DocumentTransmuter::transmute("pagina.html", page.as_bytes()).unwrap();
    assert_eq!(text, html2text::from_read(page.as_bytes(), 80).unwrap());
    assert!(text.contains("Titulo"));
    assert!(text.contains("parrafo"));
    assert!(!text.contains("<b>"));
}

#[test]
fn page_is_wrapped_at_eighty_columns() {
    let page = format!("<p>{}</p>", "palabra ".repeat(40));
    let text = DocumentTransmuter::transmute("pagina.htm", page.as_bytes()).unwrap();
    assert!(text.lines().count() > 1);
    assert!(text.lines().all(|line| line.chars().count() <= 80));
}

#[test]
fn page_must_be_utf8() {
    assert_eq!(
        DocumentTransmuter::transmute("pagina.html", b"<p>\xff</p>"),
        Err(AppError::ParseError("El HTML no es UTF-8 válido".into()))
    );
}

#[test]
fn document_is_read_run_by_run() {
    let xml = "<?xml version=\"1.0\"?><w:document xmlns:w=\"http://schemas.openxmlformats.org/wordprocessingml/2006/main\"><w:body><w:p><w:r><w:t>Hola</w:t></w:r><w:r><w:t>mundo cruel</w:t></w:r></w:p></w:body></w:document>";
    let data = zipped(&[("[Content_Types].xml", "<Types/>"), ("word/document.xml", xml)]);
    assert_eq!(
        DocumentTransmuter::transmute("carta.docx", &data),
        Ok("Hola mundo cruel ".to_string())
    );
}

#[test]
fn document_that_breaks_off_keeps_what_came_before() {
    let xml = "<document><t>Hola</t><t>mundo</t></other>";
    let data = zipped(&[("word/document.xml", xml)]);
    let mut expected = String::new();
    let mut failed = false;
    for event in xml::reader::EventReader::from_str(xml) {
        match event {
            Ok(xml::reader::XmlEvent::Characters(text)) => {
                expected.push_str(&text);
                expected.push(' ');
            }
            Ok(_) => {}
            Err(_) => failed = true,
        }
    }
    assert!(failed);
    assert!(expected.starts_with("Hola "));
    assert_eq!(DocumentTransmuter::transmute("carta.docx", &data), Ok(expected));
}

#[test]
fn document_must_be_a_zip_file() {
    assert_eq!(
        DocumentTransmuter::transmute("carta.docx", b"esto no es un zip"),
        Err(AppError::ParseError("No es un archivo ZIP/DOCX válido".into()))
    );
}

#[test]
fn document_must_hold_its_main_part() {
    let data = zipped(&[("word/styles.xml", "<styles/>")]);
    assert_eq!(
        DocumentTransmuter::transmute("carta.docx", &data),
        Err(AppError::ParseError("DOCX corrupto: falta document.xml".into()))
    );
}

#[test]
fn runs_put_together() {
    let events = vec![Some("a".to_string()), None, Some("".to_string()), Some("b c".to_string())];
    assert_eq!(DocumentTransmuter::docx_text(&events), "a  b c ");
    assert_eq!(DocumentTransmuter::docx_text(&Vec::new()), "");
}

#[test]
fn workbook_is_read_sheet_by_sheet() {
    let rels = "<?xml version=\"1.0\"?><Relationships xmlns=\"http://schemas.openxmlformats.org/package/2006/relationships\"><Relationship Id=\"rId1\" Type=\"http://schemas.openxmlformats.org/officeDocument/2006/relationships/officeDocument\" Target=\"xl/workbook.xml\"></Relationship></Relationships>";
    let workbook = "<?xml version=\"1.0\"?><workbook xmlns=\"http://schemas.openxmlformats.org/spreadsheetml/2006/main\" xmlns:r=\"http://schemas.openxmlformats.org/officeDocument/2006/relationships\"><sheets><sheet name=\"Gente\" sheetId=\"1\" r:id=\"rId1\"></sheet><sheet name=\"Vacia\" sheetId=\"2\" r:id=\"rId2\"></sheet></sheets></workbook>";
    let workbook_rels = "<?xml version=\"1.0\"?><Relationships xmlns=\"http://schemas.openxmlformats.org/package/2006/relationships\"><Relationship Id=\"rId1\" Type=\"http://schemas.openxmlformats.org/officeDocument/2006/relationships/worksheet\" Target=\"worksheets/sheet1.xml\"></Relationship><Relationship Id=\"rId2\" Type=\"http://schemas.openxmlformats.org/officeDocument/2006/relationships/worksheet\" Target=\"worksheets/sheet2.xml\"></Relationship></Relationships>";
    let sheet1 = "<?xml version=\"1.0\"?><worksheet xmlns=\"http://schemas.openxmlformats.org/spreadsheetml/2006/main\"><dimension ref=\"A1:B2\"></dimension><sheetData><row r=\"1\"><c r=\"A1\" t=\"inlineStr\"><is><t>nombre</t></is></c><c r=\"B1\" t=\"inlineStr\"><is><t>edad</t></is></c></row><row r=\"2\"><c r=\"A2\" t=\"inlineStr\"><is><t>Ana</t></is></c><c r=\"B2\"><v>30</v></c></row></sheetData></worksheet>";
    let sheet2 = "<?xml version=\"1.0\"?><worksheet xmlns=\"http://schemas.openxmlformats.org/spreadsheetml/2006/main\"><sheetData></sheetData></worksheet>";
    let data = zipped(&[
        ("_rels/.rels", rels),
        ("xl/workbook.xml", workbook),
        ("xl/_rels/workbook.xml.rels", workbook_rels),
        ("xl/worksheets/sheet1.xml", sheet1),
        ("xl/worksheets/sheet2.xml", sheet2),
    ]);
    assert_eq!(
        DocumentTransmuter::transmute("gente.xlsx", &data),
        Ok("--- HOJA: Gente ---\nnombre | edad\nAna | 30\n\n--- HOJA: Vacia ---\n\n".to_string())
    );
}

#[test]
fn workbook_must_open() {
    let message = parse_error(DocumentTransmuter::transmute("gente.xlsx", b"esto no es un zip"));
    assert!(message.starts_with("Error abriendo Excel: "), "{}", message);
    assert!(message.len() > "Error abriendo Excel: ".len());
}

#[test]
fn sheets_put_together() {
    let mut text = "antes\n".to_string();
    let rows = vec![vec!["a".to_string(), "".to_string(), "c".to_string()], vec![]];
    DocumentTransmuter::push_sheet(&mut text, "Hoja 1", &rows);
    assert_eq!(text, "antes\n--- HOJA: Hoja 1 ---\na |  | c\n\n\n");
}

#[test]
fn pdf_is_read_page_by_page() {
    let data = pdf_of(&["Hola mundo", "Segunda pagina"]);
    let text = DocumentTransmuter::transmute("informe.pdf", &data).unwrap();
    let document = lopdf::Document::load_mem(&data).unwrap();
    let first = document.extract_text(&[1]).unwrap();
    let second = document.extract_text(&[2]).unwrap();
    assert_eq!(text, format!("{}\n\n{}\n\n", first, second));
    assert!(first.contains("Hola mundo"));
    assert!(second.contains("Segunda pagina"));
    assert!(text.find("Hola mundo").unwrap() < text.find("Segunda pagina").unwrap());
}

#[test]
fn pdf_must_load() {
    let message = parse_error(DocumentTransmuter::transmute("informe.pdf", b"esto no es un pdf"));
    let reason = lopdf::Document::load_mem(b"esto no es un pdf").unwrap_err().to_string();
    assert_eq!(message, format!("Fallo al cargar PDF: {}", reason));
}

#[test]
fn pages_put_together() {
    let pages = vec![Some("uno".to_string()), None, Some("".to_string()), Some("dos\n".to_string())];
    assert_eq!(DocumentTransmuter::pdf_text(&pages), "uno\n\n\n\ndos\n\n\n");
    assert_eq!(DocumentTransmuter::pdf_text(&Vec::new()), "");
}

#[test]
fn pages_of_a_loaded_document() {
    let data = pdf_of(&["Primera", "Segunda", "Tercera"]);
    let document = lopdf::Document::load_mem(&data).unwrap();
    let pages = DocumentTransmuter::pdf_pages(&document);
    assert_eq!(pages.len(), 3);
    for (i, page) in pages.iter().enumerate() {
        assert_eq!(*page, document.extract_text(&[i as u32 + 1]).ok());
    }
    assert!(pages[1].as_deref().unwrap().contains("Segunda"));
}

#[test]
fn pdf_text_ends_each_page_with_an_empty_line() {
    let text = DocumentTransmuter::transmute("informe.pdf", &pdf_of(&["Hola"])).unwrap();
    assert!(text.ends_with("\n\n"));
    assert_eq!(DocumentTransmuter::transmute("vacio.pdf", &pdf_of(&[])), Ok(String::new()));
}

#[test]
fn pdf_failure_begins_with_its_words() {
    for data in [&b""[..], b"%PDF-1.5", b"esto no es un pdf", b"\xff\xfe"] {
        let message = parse_error(DocumentTransmuter::transmute("informe.PDF", data));
        assert!(message.starts_with("Fallo al cargar PDF: "), "{}", message);
    }
}

#[test]
fn failures_are_parse_errors_in_words() {
    assert_eq!(
        failure("Fallo al cargar PDF: ", "sin cabecera"),
        Err(AppError::ParseError("Fallo al cargar PDF: sin cabecera".into()))
    );
    assert_eq!(failure("", ""), Err(AppError::ParseError(String::new())));
}
