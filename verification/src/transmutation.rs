//! Turning an uploaded document into text.
//!
//! The format of a document is told by the extension of its file name. A
//! plain text is taken as it is; for every other format the bytes are handed
//! to a library that knows it, and what that library reads out of them is put
//! together here, piece by piece, into one text.

use vstd::prelude::*;
use vstd::utf8::{decode_utf8, valid_utf8};
use calamine::Reader;
use std::io::Read;
use crate::errors::AppError;
use crate::text::{from_chars, join, joined, starts_with, to_chars};

verus! {

/// The formats that can be turned into text.
#[derive(Debug, Clone, Copy, PartialEq, Eq, Structural)]
pub enum SupportedFormat {
    PDF,
    DOCX,
    XLSX,
    CSV,
    HTML,
    PlainText,
}

/// The lower-case form of a text, as `str::to_lowercase` gives it.
pub uninterp spec fn lowercase_of(s: Seq<char>) -> Seq<char>;

/// Calls `str::to_lowercase`. The result depends on the text alone; the
/// contract names it without spelling out the rules of Unicode.
#[verifier::external_body]
pub(crate) fn lowercase(s: &str) -> (lower: String)
    ensures
        lower@ == lowercase_of(s@),
{
    s.to_lowercase()
}

/// The position of the last `c` in `s`, or -1 where there is none.
pub open spec fn last_index_of(s: Seq<char>, c: char) -> int
    decreases s.len(),
{
    if s.len() == 0 {
        -1
    } else if s.last() == c {
        s.len() - 1
    } else {
        last_index_of(s.drop_last(), c)
    }
}

/// A path without the slashes and the components `.` at its end, which name
/// nothing.
pub open spec fn without_trailing_dots(path: Seq<char>) -> Seq<char>
    decreases path.len(),
{
    if path.len() > 0 && path.last() == '/' {
        without_trailing_dots(path.drop_last())
    } else if path.len() >= 2 && path.last() == '.' && path[path.len() - 2] == '/' {
        without_trailing_dots(path.take(path.len() - 2))
    } else {
        path
    }
}

/// The last component of a path whose components are separated by `/`.
pub open spec fn file_name(path: Seq<char>) -> Seq<char> {
    let p = without_trailing_dots(path);
    p.skip(last_index_of(p, '/') + 1)
}

/// The extension of the file that a path names: what follows the last dot of
/// the file name. A name without a dot has none, nor has one whose only dot
/// is its first character, nor has the name `..`.
pub open spec fn extension(path: Seq<char>) -> Option<Seq<char>> {
    let name = file_name(path);
    let dot = last_index_of(name, '.');
    if dot <= 0 || name == seq!['.', '.'] {
        None
    } else {
        Some(name.skip(dot + 1))
    }
}

/// The format that an extension in lower case stands for.
pub open spec fn format_of(ext: Seq<char>) -> Option<SupportedFormat> {
    if ext == "pdf"@ {
        Some(SupportedFormat::PDF)
    } else if ext == "docx"@ {
        Some(SupportedFormat::DOCX)
    } else if ext == "xlsx"@ || ext == "xls"@ {
        Some(SupportedFormat::XLSX)
    } else if ext == "csv"@ {
        Some(SupportedFormat::CSV)
    } else if ext == "html"@ || ext == "htm"@ {
        Some(SupportedFormat::HTML)
    } else if ext == "txt"@ || ext == "md"@ || ext == "json"@ || ext == "xml"@ {
        Some(SupportedFormat::PlainText)
    } else {
        None
    }
}

/// The format of the file that a path names.
pub open spec fn format_of_path(path: Seq<char>) -> Option<SupportedFormat> {
    match extension(path) {
        Some(ext) => format_of(lowercase_of(ext)),
        None => None,
    }
}

/// The last `c` of `s` stands where `last_index_of` says, and nowhere behind.
pub proof fn lemma_last_index_of(s: Seq<char>, c: char)
    ensures
        -1 <= last_index_of(s, c) < s.len(),
        last_index_of(s, c) >= 0 ==> s[last_index_of(s, c)] == c,
        forall|k: int| last_index_of(s, c) < k < s.len() ==> s[k] != c,
    decreases s.len(),
{
    if s.len() > 0 && s.last() != c {
        lemma_last_index_of(s.drop_last(), c);
        assert forall|k: int| last_index_of(s, c) < k < s.len() implies s[k] != c by {
            if k < s.len() - 1 {
                assert(s.drop_last()[k] == s[k]);
            }
        }
    }
}

proof fn lemma_last_index_is(s: Seq<char>, c: char, at: int)
    requires
        -1 <= at < s.len(),
        at >= 0 ==> s[at] == c,
        forall|k: int| at < k < s.len() ==> s[k] != c,
    ensures
        last_index_of(s, c) == at,
{
    lemma_last_index_of(s, c);
}

fn str_is(a: &str, b: &str) -> (same: bool)
    ensures
        same == (a@ == b@),
{
    String::from_str(a) == String::from_str(b)
}

/// Where the extension of the file that `chars` names begins and ends.
fn extension_span(chars: &Vec<char>) -> (span: Option<(usize, usize)>)
    ensures
        span is Some <==> extension(chars@) is Some,
        span matches Some(s) ==> s.0 <= s.1 <= chars.len() && chars@.subrange(
            s.0 as int,
            s.1 as int,
        ) == extension(chars@)->0,
{
    let mut end: usize = chars.len();
    proof {
        assert(chars@.take(end as int) =~= chars@);
    }
    loop
        invariant
            end <= chars.len(),
            without_trailing_dots(chars@) == without_trailing_dots(chars@.take(end as int)),
        ensures
            end <= chars.len(),
            without_trailing_dots(chars@) == chars@.take(end as int),
        decreases end,
    {
        proof {
            let p = chars@.take(end as int);
            if end > 0 {
                assert(p.drop_last() =~= chars@.take(end - 1));
            }
            if end >= 2 {
                assert(p.take(p.len() - 2) =~= chars@.take(end - 2));
            }
        }
        if end > 0 && chars[end - 1] == '/' {
            end -= 1;
        } else if end >= 2 && chars[end - 1] == '.' && chars[end - 2] == '/' {
            end -= 2;
        } else {
            break ;
        }
    }
    let ghost p = chars@.take(end as int);
    let mut start: usize = end;
    while start > 0 && chars[start - 1] != '/'
        invariant
            start <= end <= chars.len(),
            p == chars@.take(end as int),
            forall|k: int| start <= k < end ==> p[k] != '/',
        decreases start,
    {
        start -= 1;
    }
    proof {
        lemma_last_index_is(p, '/', start - 1);
        assert(file_name(chars@) =~= chars@.subrange(start as int, end as int));
    }
    let ghost name = chars@.subrange(start as int, end as int);
    let mut dot: usize = end;
    while dot > start && chars[dot - 1] != '.'
        invariant
            start <= dot <= end <= chars.len(),
            name == chars@.subrange(start as int, end as int),
            forall|k: int| dot - start <= k < name.len() ==> name[k] != '.',
        decreases dot,
    {
        dot -= 1;
    }
    proof {
        lemma_last_index_is(name, '.', dot - start - 1);
    }
    if dot - start <= 1 {
        return None;
    }
    if end - start == 2 && chars[start] == '.' && chars[start + 1] == '.' {
        proof {
            assert(name =~= seq!['.', '.']);
        }
        return None;
    }
    Some((dot, end))
}

impl SupportedFormat {
    /// The format that `ext`, an extension in lower case, stands for.
    pub fn from_extension(ext: &str) -> (format: Option<SupportedFormat>)
        ensures
            format == format_of(ext@),
    {
        if str_is(ext, "pdf") {
            Some(SupportedFormat::PDF)
        } else if str_is(ext, "docx") {
            Some(SupportedFormat::DOCX)
        } else if str_is(ext, "xlsx") || str_is(ext, "xls") {
            Some(SupportedFormat::XLSX)
        } else if str_is(ext, "csv") {
            Some(SupportedFormat::CSV)
        } else if str_is(ext, "html") || str_is(ext, "htm") {
            Some(SupportedFormat::HTML)
        } else if str_is(ext, "txt") || str_is(ext, "md") || str_is(ext, "json") || str_is(
            ext,
            "xml",
        ) {
            Some(SupportedFormat::PlainText)
        } else {
            None
        }
    }

    /// The format of the file that `filename` names, told by its extension,
    /// whatever the case of its letters; `None` where the name has no
    /// extension or one that stands for no format.
    pub fn from_filename(filename: &str) -> (format: Option<SupportedFormat>)
        ensures
            format == format_of_path(filename@),
    {
        let chars = to_chars(filename);
        match extension_span(&chars) {
            Some((from, to)) => {
                let ext = from_chars(&chars, from, to);
                let lower = lowercase(ext.as_str());
                SupportedFormat::from_extension(lower.as_str())
            },
            None => None,
        }
    }
}

/// `lopdf::Document`, a PDF file that was read.
#[verifier::external_type_specification]
#[verifier::external_body]
pub struct ExPdfDocument(lopdf::Document);

/// `std::io::Cursor`, which reads from bytes in memory.
#[verifier::external_type_specification]
#[verifier::external_body]
#[verifier::reject_recursive_types(T)]
pub struct ExCursor<T>(std::io::Cursor<T>);

/// `zip::ZipArchive`, a ZIP file whose directory was read.
#[verifier::external_type_specification]
#[verifier::external_body]
#[verifier::reject_recursive_types(R)]
pub struct ExZipArchive<R>(zip::ZipArchive<R>);

/// `calamine::Xlsx`, a workbook that was opened.
#[verifier::external_type_specification]
#[verifier::external_body]
#[verifier::reject_recursive_types(RS)]
pub struct ExXlsx<RS>(calamine::Xlsx<RS>);

/// `csv::Reader`, which reads a table record by record.
#[verifier::external_type_specification]
#[verifier::external_body]
#[verifier::reject_recursive_types(R)]
pub struct ExCsvReader<R>(csv::Reader<R>);

/// The text of the cells of one row.
pub type Row = Seq<Seq<char>>;

/// The pages of a PDF document in their order, each with the text that can
/// be extracted from it, if any.
pub uninterp spec fn pdf_pages(document: lopdf::Document) -> Seq<Option<Seq<char>>>;

/// What `zip` makes of the bytes of a ZIP file: the entries that open by
/// name, each with its content as text or the reason why it cannot be read
/// as text; or nothing where the bytes are no ZIP file.
pub uninterp spec fn zip_parsed(data: Seq<u8>) -> Option<Map<Seq<char>, Result<Seq<char>, Seq<char>>>>;

/// The entries of a ZIP archive that open by name, each with its content as
/// text or the reason why it cannot be read as text.
pub uninterp spec fn zip_entries(archive: zip::ZipArchive<std::io::Cursor<&[u8]>>) -> Map<Seq<char>, Result<Seq<char>, Seq<char>>>;

/// What an XML reader makes of a text: for each event that it reports, the
/// character data where the event is character data, and nothing where it is
/// anything else.
pub uninterp spec fn xml_character_data(xml: Seq<char>) -> Seq<Option<Seq<char>>>;

/// What `calamine` makes of the bytes of a workbook: the names of its sheets
/// in their order and, by name, the rows of each sheet that can be read; or
/// the reason why the workbook cannot be opened.
pub uninterp spec fn xlsx_parsed(data: Seq<u8>) -> Result<(Seq<Seq<char>>, Map<Seq<char>, Seq<Row>>), Seq<char>>;

/// The names of the sheets of a workbook in their order and, by name, the
/// rows of each sheet that can be read.
pub uninterp spec fn xlsx_contents(workbook: calamine::Xlsx<std::io::Cursor<&[u8]>>) -> (Seq<Seq<char>>, Map<Seq<char>, Seq<Row>>);

/// What `csv` makes of the bytes of a table: the header, if it can be read,
/// and the records after it in their order, each with its fields if it can
/// be read.
pub uninterp spec fn csv_parsed(data: Seq<u8>) -> (Option<Row>, Seq<Option<Row>>);

/// The header and the records of the table that a reader reads.
pub uninterp spec fn csv_table(reader: csv::Reader<&[u8]>) -> (Option<Row>, Seq<Option<Row>>);

/// What `html2text` makes of the bytes of an HTML page, for lines of `width`
/// columns: the page as text, or the reason why it cannot be rendered.
pub uninterp spec fn html_rendered(html: Seq<u8>, width: nat) -> Result<Seq<char>, Seq<char>>;

/// Why bytes that are not UTF-8 are not, in the words of `String::from_utf8`.
pub uninterp spec fn utf8_failure(bytes: Seq<u8>) -> Seq<char>;

/// Calls `Document::load_mem`; a failure comes back in the words of `lopdf`.
/// Nothing is said of what the bytes lead to: which objects of a file that
/// contradicts itself are loaded is not settled by the bytes alone.
#[verifier::external_body]
pub(crate) fn pdf_load(data: &[u8]) -> (loaded: Result<lopdf::Document, String>) {
    lopdf::Document::load_mem(data).map_err(|e| e.to_string())
}

/// Calls `Document::get_pages` and hands out the page numbers, which count
/// the pages from 1.
#[verifier::external_body]
pub(crate) fn pdf_page_numbers(document: &lopdf::Document) -> (numbers: Vec<u32>)
    ensures
        numbers@.len() == pdf_pages(*document).len(),
        forall|i: int| 0 <= i < numbers@.len() ==> numbers@[i] == i + 1,
{
    document.get_pages().into_keys().collect()
}

/// Calls `Document::extract_text` for one page: the text of that page, or
/// nothing where none can be extracted.
#[verifier::external_body]
pub(crate) fn pdf_page_text(document: &lopdf::Document, number: u32) -> (text: Option<String>)
    ensures
        1 <= number <= pdf_pages(*document).len() ==> text.deep_view() == pdf_pages(
            *document,
        )[number - 1],
{
    document.extract_text(&[number]).ok()
}

/// Calls `ZipArchive::new` on the bytes. The archive that comes back holds
/// the entries that the bytes stand for.
#[verifier::external_body]
pub(crate) fn zip_open(data: &[u8]) -> (opened: Option<zip::ZipArchive<std::io::Cursor<&[u8]>>>)
    ensures
        match opened {
            Some(archive) => zip_parsed(data@) == Some(zip_entries(archive)),
            None => zip_parsed(data@) is None,
        },
{
    zip::ZipArchive::new(std::io::Cursor::new(data)).ok()
}

/// Calls `ZipArchive::by_name` and reads the entry to its end as text:
/// nothing where no entry opens under that name, else the text or the reason
/// why the entry cannot be read as text. The archive holds afterwards what
/// it held before.
#[verifier::external_body]
pub(crate) fn zip_read_text(
    archive: &mut zip::ZipArchive<std::io::Cursor<&[u8]>>,
    name: &str,
) -> (entry: Option<Result<String, String>>)
    ensures
        zip_entries(*final(archive)) == zip_entries(*old(archive)),
        entry is Some <==> zip_entries(*old(archive)).dom().contains(name@),
        entry matches Some(Ok(text)) ==> (zip_entries(*old(archive))[name@] matches Ok(held)
            && held == text@),
        entry matches Some(Err(reason)) ==> (zip_entries(*old(archive))[name@] matches Err(why)
            && why == reason@),
{
    match archive.by_name(name) {
        Ok(mut file) => {
            let mut text = String::new();
            Some(file.read_to_string(&mut text).map(|_| text).map_err(|e| e.to_string()))
        },
        Err(_) => None,
    }
}

/// Calls `EventReader::from_str` and walks the events to the end of the
/// document or to the first error, keeping the text of each event that is
/// character data.
#[verifier::external_body]
pub(crate) fn xml_events(xml: &str) -> (events: Vec<Option<String>>)
    ensures
        events.deep_view() == xml_character_data(xml@),
{
    xml::reader::EventReader::from_str(xml).into_iter().map(
        |event|
            match event {
                Ok(xml::reader::XmlEvent::Characters(text)) => Some(text),
                _ => None,
            },
    ).collect()
}

/// Calls `calamine::open_workbook_from_rs` on the bytes. The workbook that
/// comes back holds the sheets that the bytes stand for; a failure comes back
/// in the words of `calamine`.
#[verifier::external_body]
pub(crate) fn xlsx_open(data: &[u8]) -> (opened: Result<
    calamine::Xlsx<std::io::Cursor<&[u8]>>,
    String,
>)
    ensures
        match opened {
            Ok(workbook) => xlsx_parsed(data@) matches Ok(contents) && contents == xlsx_contents(
                workbook,
            ),
            Err(reason) => xlsx_parsed(data@) matches Err(why) && why == reason@,
        },
{
    calamine::open_workbook_from_rs(std::io::Cursor::new(data)).map_err(
        |e: calamine::XlsxError| e.to_string(),
    )
}

/// Calls `Reader::sheet_names`: the names of the sheets, in the order of the
/// workbook.
#[verifier::external_body]
pub(crate) fn xlsx_sheet_names(workbook: &calamine::Xlsx<std::io::Cursor<&[u8]>>) -> (names: Vec<
    String,
>)
    ensures
        names.deep_view() == xlsx_contents(*workbook).0,
{
    workbook.sheet_names()
}

/// Calls `Reader::worksheet_range` and hands out the rows of the range, each
/// cell as the text that it is displayed as; nothing where the sheet cannot
/// be read. The workbook holds afterwards what it held before.
#[verifier::external_body]
pub(crate) fn xlsx_sheet_rows(
    workbook: &mut calamine::Xlsx<std::io::Cursor<&[u8]>>,
    name: &str,
) -> (rows: Option<Vec<Vec<String>>>)
    ensures
        xlsx_contents(*final(workbook)) == xlsx_contents(*old(workbook)),
        rows is Some <==> xlsx_contents(*old(workbook)).1.dom().contains(name@),
        rows matches Some(found) ==> found.deep_view() == xlsx_contents(*old(workbook)).1[name@],
{
    workbook.worksheet_range(name).ok().map(
        |range| range.rows().map(|row| row.iter().map(|cell| cell.to_string()).collect()).collect(),
    )
}

/// Calls `csv::Reader::from_reader` on the bytes. The reader that comes back
/// reads the table that the bytes stand for.
#[verifier::external_body]
pub(crate) fn csv_reader(data: &[u8]) -> (reader: csv::Reader<&[u8]>)
    ensures
        csv_table(reader) == csv_parsed(data@),
{
    csv::Reader::from_reader(data)
}

/// Calls `Reader::headers`: the fields of the header, or nothing where it
/// cannot be read. The records that follow are read as before.
#[verifier::external_body]
pub(crate) fn csv_headers(reader: &mut csv::Reader<&[u8]>) -> (header: Option<Vec<String>>)
    ensures
        csv_table(*final(reader)) == csv_table(*old(reader)),
        header.deep_view() == csv_table(*old(reader)).0,
{
    reader.headers().ok().map(|record| record.iter().map(|field| field.to_string()).collect())
}

/// Calls `Reader::records` and walks them to the end: the fields of each
/// record, or nothing for a record that cannot be read.
#[verifier::external_body]
pub(crate) fn csv_records(reader: &mut csv::Reader<&[u8]>) -> (records: Vec<Option<Vec<String>>>)
    ensures
        records.deep_view() == csv_table(*old(reader)).1,
{
    reader.records().map(
        |result|
            result.ok().map(|record| record.iter().map(|field| field.to_string()).collect()),
    ).collect()
}

/// Calls `html2text::from_read`, which renders a page as text in lines of
/// `width` columns; a failure comes back in the words of `html2text`.
#[verifier::external_body]
pub(crate) fn html_to_text(html: &[u8], width: usize) -> (rendered: Result<String, String>)
    ensures
        match rendered {
            Ok(text) => html_rendered(html@, width as nat) matches Ok(page) && page == text@,
            Err(reason) => html_rendered(html@, width as nat) matches Err(why) && why == reason@,
        },
{
    html2text::from_read(html, width).map_err(|e| e.to_string())
}

/// Calls `String::from_utf8` on a copy of the bytes: the text that the bytes
/// encode, where they are UTF-8, and else the reason in the words of std.
#[verifier::external_body]
pub(crate) fn text_from_utf8(data: &[u8]) -> (decoded: Result<String, String>)
    ensures
        decoded is Ok <==> valid_utf8(data@),
        decoded matches Ok(text) ==> text@ == decode_utf8(data@),
        decoded matches Err(reason) ==> reason@ == utf8_failure(data@),
{
    String::from_utf8(data.to_vec()).map_err(|e| e.to_string())
}

/// The columns of a line of a rendered page.
pub const HTML_WIDTH: usize = 80;

/// The text of a PDF document: the text of each page that has one, with an
/// empty line after it.
pub open spec fn pdf_text(pages: Seq<Option<Seq<char>>>) -> Seq<char>
    decreases pages.len(),
{
    if pages.len() == 0 {
        Seq::empty()
    } else {
        pdf_text(pages.drop_last()) + match pages.last() {
            Some(text) => text + "\n\n"@,
            None => Seq::empty(),
        }
    }
}

/// The text of a DOCX document: each run of character data, with a space
/// after it.
pub open spec fn docx_text(events: Seq<Option<Seq<char>>>) -> Seq<char>
    decreases events.len(),
{
    if events.len() == 0 {
        Seq::empty()
    } else {
        docx_text(events.drop_last()) + match events.last() {
            Some(text) => text + " "@,
            None => Seq::empty(),
        }
    }
}

/// The fields of one row, with a bar between each two.
pub open spec fn row_text(row: Row) -> Seq<char>
    decreases row.len(),
{
    if row.len() == 0 {
        Seq::empty()
    } else if row.len() == 1 {
        row[0]
    } else {
        row_text(row.drop_last()) + " | "@ + row.last()
    }
}

/// Rows one below the other.
pub open spec fn rows_text(rows: Seq<Row>) -> Seq<char>
    decreases rows.len(),
{
    if rows.len() == 0 {
        Seq::empty()
    } else {
        rows_text(rows.drop_last()) + row_text(rows.last()) + "\n"@
    }
}

/// The text of one sheet: its name in a line of its own, its rows, and an
/// empty line.
pub open spec fn sheet_text(name: Seq<char>, rows: Seq<Row>) -> Seq<char> {
    "--- HOJA: "@ + name + " ---\n"@ + rows_text(rows) + "\n"@
}

/// The text of a workbook: the text of each sheet that can be read, in the
/// order of the workbook.
pub open spec fn xlsx_text(names: Seq<Seq<char>>, sheets: Map<Seq<char>, Seq<Row>>) -> Seq<char>
    decreases names.len(),
{
    if names.len() == 0 {
        Seq::empty()
    } else {
        xlsx_text(names.drop_last(), sheets) + if sheets.dom().contains(names.last()) {
            sheet_text(names.last(), sheets[names.last()])
        } else {
            Seq::empty()
        }
    }
}

/// The records that can be read, one below the other.
pub open spec fn records_text(records: Seq<Option<Row>>) -> Seq<char>
    decreases records.len(),
{
    if records.len() == 0 {
        Seq::empty()
    } else {
        records_text(records.drop_last()) + match records.last() {
            Some(row) => row_text(row) + "\n"@,
            None => Seq::empty(),
        }
    }
}

/// The text of a table: the header, if it can be read, with a rule below it,
/// and the records that can be read.
pub open spec fn csv_text(header: Option<Row>, records: Seq<Option<Row>>) -> Seq<char> {
    let head = match header {
        Some(row) => row_text(row) + "\n---\n"@,
        None => Seq::empty(),
    };
    head + records_text(records)
}

/// The entry of a DOCX file that holds the document.
pub open spec fn docx_entry() -> Seq<char> {
    "word/document.xml"@
}

/// The words before the reason why a PDF file cannot be loaded.
pub open spec fn pdf_failure_prefix() -> Seq<char> {
    "Fallo al cargar PDF: "@
}

/// What holds of reading a PDF file, whatever is made of its bytes: the
/// outcome is the text of some pages put together, or a parse error whose
/// message begins with the words for a file that cannot be loaded.
pub open spec fn reads_pdf(outcome: Result<String, AppError>) -> bool {
    match outcome {
        Ok(text) => exists|pages: Seq<Option<Seq<char>>>| text@ == #[trigger] pdf_text(pages),
        Err(error) => error matches AppError::ParseError(message) && starts_with(
            message@,
            pdf_failure_prefix(),
        ),
    }
}

/// What reading a DOCX file gives: its text, or why it fails.
pub open spec fn docx_reading(data: Seq<u8>) -> Result<Seq<char>, Seq<char>> {
    match zip_parsed(data) {
        None => Err("No es un archivo ZIP/DOCX válido"@),
        Some(entries) => if !entries.dom().contains(docx_entry()) {
            Err("DOCX corrupto: falta document.xml"@)
        } else {
            match entries[docx_entry()] {
                Err(reason) => Err(reason),
                Ok(xml) => Ok(docx_text(xml_character_data(xml))),
            }
        },
    }
}

/// What reading a workbook gives: its text, or why it fails.
pub open spec fn xlsx_reading(data: Seq<u8>) -> Result<Seq<char>, Seq<char>> {
    match xlsx_parsed(data) {
        Ok(contents) => Ok(xlsx_text(contents.0, contents.1)),
        Err(reason) => Err("Error abriendo Excel: "@ + reason),
    }
}

/// What reading a table gives: its text. It never fails: what cannot be read
/// is left out.
pub open spec fn csv_reading(data: Seq<u8>) -> Result<Seq<char>, Seq<char>> {
    Ok(csv_text(csv_parsed(data).0, csv_parsed(data).1))
}

/// What reading an HTML page gives: its text, or why it fails.
pub open spec fn html_reading(data: Seq<u8>) -> Result<Seq<char>, Seq<char>> {
    if !valid_utf8(data) {
        Err("El HTML no es UTF-8 válido"@)
    } else {
        match html_rendered(data, HTML_WIDTH as nat) {
            Ok(text) => Ok(text),
            Err(reason) => Err("Error procesando HTML: "@ + reason),
        }
    }
}

/// What reading a plain text gives: the text, or why it fails.
pub open spec fn plain_reading(data: Seq<u8>) -> Result<Seq<char>, Seq<char>> {
    if valid_utf8(data) {
        Ok(decode_utf8(data))
    } else {
        Err("Error UTF-8: "@ + utf8_failure(data))
    }
}

/// Whether `outcome` is `expected`: the same text, or a parse error with the
/// same message.
pub open spec fn reads_as(
    outcome: Result<String, AppError>,
    expected: Result<Seq<char>, Seq<char>>,
) -> bool {
    match expected {
        Ok(text) => outcome matches Ok(found) && found@ == text,
        Err(message) => outcome matches Err(AppError::ParseError(found)) && found@ == message,
    }
}

/// Whether `outcome` is what reading the document `data`, named `filename`,
/// gives. A file whose name tells no format cannot be read. For a PDF file
/// the outcome is held to what holds of every reading; for every other
/// format it is the one text, or the one reason, that the bytes lead to.
pub open spec fn transmuted(
    filename: Seq<char>,
    data: Seq<u8>,
    outcome: Result<String, AppError>,
) -> bool {
    match format_of_path(filename) {
        None => reads_as(outcome, Err("Formato no soportado: "@ + filename)),
        Some(SupportedFormat::PDF) => reads_pdf(outcome),
        Some(SupportedFormat::DOCX) => reads_as(outcome, docx_reading(data)),
        Some(SupportedFormat::XLSX) => reads_as(outcome, xlsx_reading(data)),
        Some(SupportedFormat::CSV) => reads_as(outcome, csv_reading(data)),
        Some(SupportedFormat::HTML) => reads_as(outcome, html_reading(data)),
        Some(SupportedFormat::PlainText) => reads_as(outcome, plain_reading(data)),
    }
}

/// The parse error that says `prefix` and then `reason`.
pub fn failure(prefix: &str, reason: &str) -> (outcome: Result<String, AppError>)
    ensures
        reads_as(outcome, Err(prefix@ + reason@)),
{
    Err(AppError::ParseError(String::from_str(prefix).concat(reason)))
}

fn failure_of(message: &str) -> (outcome: Result<String, AppError>)
    ensures
        reads_as(outcome, Err(message@)),
{
    Err(AppError::ParseError(String::from_str(message)))
}

fn push_row(text: &mut String, row: &Vec<String>)
    ensures
        final(text)@ == old(text)@ + row_text(row.deep_view()),
{
    let ghost before = text@;
    let mut i: usize = 0;
    while i < row.len()
        invariant
            i <= row.len(),
            text@ == before + row_text(row.deep_view().take(i as int)),
        decreases row.len() - i,
    {
        proof {
            assert(row.deep_view().take(i + 1).drop_last() =~= row.deep_view().take(i as int));
        }
        if i > 0 {
            text.append(" | ");
        }
        text.append(row[i].as_str());
        i += 1;
    }
    proof {
        assert(row.deep_view().take(row.len() as int) =~= row.deep_view());
    }
}

/// Turns documents into text: its functions read each format and put the
/// pieces together.
pub struct DocumentTransmuter;

impl DocumentTransmuter {
    /// Puts the pages of a PDF document together.
    pub fn pdf_text(pages: &Vec<Option<String>>) -> (text: String)
        ensures
            text@ == pdf_text(pages.deep_view()),
    {
        let mut text = String::new();
        let mut i: usize = 0;
        while i < pages.len()
            invariant
                i <= pages.len(),
                text@ == pdf_text(pages.deep_view().take(i as int)),
            decreases pages.len() - i,
        {
            proof {
                assert(pages.deep_view().take(i + 1).drop_last() =~= pages.deep_view().take(
                    i as int,
                ));
            }
            match &pages[i] {
                Some(page) => {
                    text.append(page.as_str());
                    text.append("\n\n");
                },
                None => {},
            }
            i += 1;
        }
        proof {
            assert(pages.deep_view().take(pages.len() as int) =~= pages.deep_view());
        }
        text
    }

    /// Puts the character data of a DOCX document together.
    pub fn docx_text(events: &Vec<Option<String>>) -> (text: String)
        ensures
            text@ == docx_text(events.deep_view()),
    {
        let mut text = String::new();
        let mut i: usize = 0;
        while i < events.len()
            invariant
                i <= events.len(),
                text@ == docx_text(events.deep_view().take(i as int)),
            decreases events.len() - i,
        {
            proof {
                assert(events.deep_view().take(i + 1).drop_last() =~= events.deep_view().take(
                    i as int,
                ));
            }
            match &events[i] {
                Some(run) => {
                    text.append(run.as_str());
                    text.append(" ");
                },
                None => {},
            }
            i += 1;
        }
        proof {
            assert(events.deep_view().take(events.len() as int) =~= events.deep_view());
        }
        text
    }

    /// Appends one sheet of a workbook to `text`.
    pub fn push_sheet(text: &mut String, name: &str, rows: &Vec<Vec<String>>)
        ensures
            final(text)@ == old(text)@ + sheet_text(name@, rows.deep_view()),
    {
        text.append("--- HOJA: ");
        text.append(name);
        text.append(" ---\n");
        let ghost head = text@;
        let mut i: usize = 0;
        while i < rows.len()
            invariant
                i <= rows.len(),
                text@ == head + rows_text(rows.deep_view().take(i as int)),
            decreases rows.len() - i,
        {
            proof {
                assert(rows.deep_view().take(i + 1).drop_last() =~= rows.deep_view().take(
                    i as int,
                ));
            }
            push_row(text, &rows[i]);
            text.append("\n");
            i += 1;
        }
        text.append("\n");
        proof {
            assert(rows.deep_view().take(rows.len() as int) =~= rows.deep_view());
        }
    }

    /// Puts the header and the records of a table together.
    pub fn csv_text(header: &Option<Vec<String>>, records: &Vec<Option<Vec<String>>>) -> (text:
        String)
        ensures
            text@ == csv_text(header.deep_view(), records.deep_view()),
    {
        let mut text = String::new();
        match header {
            Some(row) => {
                push_row(&mut text, row);
                text.append("\n---\n");
            },
            None => {},
        }
        let ghost head = text@;
        let mut i: usize = 0;
        while i < records.len()
            invariant
                i <= records.len(),
                text@ == head + records_text(records.deep_view().take(i as int)),
            decreases records.len() - i,
        {
            proof {
                assert(records.deep_view().take(i + 1).drop_last() =~= records.deep_view().take(
                    i as int,
                ));
            }
            match &records[i] {
                Some(row) => {
                    push_row(&mut text, row);
                    text.append("\n");
                },
                None => {},
            }
            i += 1;
        }
        proof {
            assert(records.deep_view().take(records.len() as int) =~= records.deep_view());
        }
        text
    }

    /// Reads the pages of a PDF document that was loaded, in their order.
    pub fn pdf_pages(document: &lopdf::Document) -> (pages: Vec<Option<String>>)
        ensures
            pages.deep_view() == pdf_pages(*document),
    {
        let numbers = pdf_page_numbers(document);
        let mut pages: Vec<Option<String>> = Vec::new();
        let mut i: usize = 0;
        while i < numbers.len()
            invariant
                i <= numbers.len(),
                numbers@.len() == pdf_pages(*document).len(),
                forall|k: int| 0 <= k < numbers@.len() ==> numbers@[k] == k + 1,
                pages.deep_view() == pdf_pages(*document).take(i as int),
            decreases numbers.len() - i,
        {
            let page = pdf_page_text(document, numbers[i]);
            let ghost before = pages.deep_view();
            pages.push(page);
            proof {
                assert(pages.deep_view() =~= before.push(page.deep_view()));
            }
            i += 1;
        }
        proof {
            assert(pdf_pages(*document).take(numbers@.len() as int) =~= pdf_pages(*document));
        }
        pages
    }

    fn parse_pdf(data: &[u8]) -> (outcome: Result<String, AppError>)
        ensures
            reads_pdf(outcome),
    {
        match pdf_load(data) {
            Err(reason) => {
                let outcome = failure("Fallo al cargar PDF: ", reason.as_str());
                proof {
                    let message = pdf_failure_prefix() + reason@;
                    assert(message.take(pdf_failure_prefix().len() as int)
                        =~= pdf_failure_prefix());
                }
                outcome
            },
            Ok(document) => {
                let pages = Self::pdf_pages(&document);
                let text = Self::pdf_text(&pages);
                proof {
                    assert(text@ == pdf_text(pages.deep_view()));
                }
                Ok(text)
            },
        }
    }

    fn parse_docx(data: &[u8]) -> (outcome: Result<String, AppError>)
        ensures
            reads_as(outcome, docx_reading(data@)),
    {
        match zip_open(data) {
            None => failure_of("No es un archivo ZIP/DOCX válido"),
            Some(mut archive) => match zip_read_text(&mut archive, "word/document.xml") {
                None => failure_of("DOCX corrupto: falta document.xml"),
                Some(Err(reason)) => failure_of(reason.as_str()),
                Some(Ok(xml)) => {
                    let events = xml_events(xml.as_str());
                    Ok(Self::docx_text(&events))
                },
            },
        }
    }

    fn parse_xlsx(data: &[u8]) -> (outcome: Result<String, AppError>)
        ensures
            reads_as(outcome, xlsx_reading(data@)),
    {
        match xlsx_open(data) {
            Err(reason) => failure("Error abriendo Excel: ", reason.as_str()),
            Ok(mut workbook) => {
                let ghost contents = xlsx_contents(workbook);
                let names = xlsx_sheet_names(&workbook);
                let mut text = String::new();
                let mut i: usize = 0;
                while i < names.len()
                    invariant
                        i <= names.len(),
                        xlsx_contents(workbook) == contents,
                        names.deep_view() == contents.0,
                        text@ == xlsx_text(contents.0.take(i as int), contents.1),
                    decreases names.len() - i,
                {
                    proof {
                        assert(contents.0.take(i + 1).drop_last() =~= contents.0.take(i as int));
                    }
                    match xlsx_sheet_rows(&mut workbook, names[i].as_str()) {
                        Some(rows) => {
                            Self::push_sheet(&mut text, names[i].as_str(), &rows);
                        },
                        None => {},
                    }
                    i += 1;
                }
                proof {
                    assert(contents.0.take(names.len() as int) =~= contents.0);
                }
                Ok(text)
            },
        }
    }

    fn parse_csv(data: &[u8]) -> (outcome: Result<String, AppError>)
        ensures
            reads_as(outcome, csv_reading(data@)),
    {
        let mut reader = csv_reader(data);
        let header = csv_headers(&mut reader);
        let records = csv_records(&mut reader);
        Ok(Self::csv_text(&header, &records))
    }

    fn parse_html(data: &[u8]) -> (outcome: Result<String, AppError>)
        ensures
            reads_as(outcome, html_reading(data@)),
    {
        match text_from_utf8(data) {
            Err(_) => failure_of("El HTML no es UTF-8 válido"),
            Ok(_) => match html_to_text(data, HTML_WIDTH) {
                Ok(text) => Ok(text),
                Err(reason) => failure("Error procesando HTML: ", reason.as_str()),
            },
        }
    }

    fn parse_plain(data: &[u8]) -> (outcome: Result<String, AppError>)
        ensures
            reads_as(outcome, plain_reading(data@)),
    {
        match text_from_utf8(data) {
            Ok(text) => Ok(text),
            Err(reason) => failure("Error UTF-8: ", reason.as_str()),
        }
    }

    /// Turns the bytes of a document into text, by the format that the
    /// extension of `filename` tells. A document in no known format, or one
    /// that cannot be read, gives a parse error that says why.
    pub fn transmute(filename: &str, data: &[u8]) -> (outcome: Result<String, AppError>)
        ensures
            transmuted(filename@, data@, outcome),
    {
        match SupportedFormat::from_filename(filename) {
            None => failure("Formato no soportado: ", filename),
            Some(SupportedFormat::PDF) => Self::parse_pdf(data),
            Some(SupportedFormat::DOCX) => Self::parse_docx(data),
            Some(SupportedFormat::XLSX) => Self::parse_xlsx(data),
            Some(SupportedFormat::CSV) => Self::parse_csv(data),
            Some(SupportedFormat::HTML) => Self::parse_html(data),
            Some(SupportedFormat::PlainText) => Self::parse_plain(data),
        }
    }
}

} // verus!
