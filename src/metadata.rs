//! Metadata fields read from an image's embedded Exif container, and the
//! printable lines made from them: `<tag> <directory> <value with unit>`.

use vstd::prelude::*;
use crate::ifd::{ifd_label, ifd_text};

verus! {

#[verifier::external_type_specification]
#[verifier::external_body]
pub struct ExExifError(exif::Error);

/// One metadata field as plain values: the tag's name, the number of the
/// directory that holds the field, and the value rendered with its unit
/// (the unit may come from other fields of the same container).
pub struct FieldRecord {
    pub tag: String,
    pub ifd_num: u16,
    pub value: String,
}

/// A field's tag name, directory number and rendered value.
pub type FieldView = (Seq<char>, u16, Seq<char>);

impl View for FieldRecord {
    type V = FieldView;

    open spec fn view(&self) -> FieldView {
        (self.tag@, self.ifd_num, self.value@)
    }
}

/// What the container in `bytes` holds: its fields in the order the
/// container gives them, or nothing where it cannot be parsed.
pub uninterp spec fn container_fields(bytes: Seq<u8>) -> Option<Seq<FieldView>>;

/// Relies on `exif::Reader::read_from_container`, read over the bytes in
/// memory, and on the `Exif` it returns for each field's tag name
/// (`Display` of `Tag`), directory number (`In::index`) and value with its
/// unit (`display_value().with_unit(&exif)`). The result depends on the
/// bytes alone.
#[verifier::external_body]
fn read_container_fields(bytes: &[u8]) -> (r: Result<Vec<FieldRecord>, exif::Error>)
    ensures
        match r {
            Ok(v) => container_fields(bytes@) == Some(v@.map_values(|f: FieldRecord| f@)),
            Err(_) => container_fields(bytes@) is None,
        },
{
    let exif = exif::Reader::new().read_from_container(&mut std::io::Cursor::new(bytes))?;
    Ok(exif.fields().map(|f| FieldRecord {
        tag: f.tag.to_string(),
        ifd_num: f.ifd_num.index(),
        value: f.display_value().with_unit(&exif).to_string(),
    }).collect())
}

/// Why one input produced no lines.
#[derive(Debug, Clone, Copy, PartialEq, Eq, Structural)]
pub enum ExtractError {
    /// The file does not exist or could not be read.
    PathNotFound,
    /// The file was read but holds no metadata container that parses.
    MalformedContainer,
}

/// The printed line of a field.
pub open spec fn field_line(f: FieldView) -> Seq<char> {
    f.0 + " "@ + ifd_label(f.1) + " "@ + f.2
}

/// The lines of a sequence of fields, one per field, in the same order.
pub open spec fn field_lines(fs: Seq<FieldView>) -> Seq<Seq<char>> {
    fs.map_values(|f: FieldView| field_line(f))
}

/// What extracting from the file contents `bytes` yields.
pub open spec fn extraction(bytes: Seq<u8>) -> Result<Seq<Seq<char>>, ExtractError> {
    match container_fields(bytes) {
        Some(fs) => Ok(field_lines(fs)),
        None => Err(ExtractError::MalformedContainer),
    }
}

/// The text of a sequence of lines.
pub open spec fn lines_view(v: Seq<String>) -> Seq<Seq<char>> {
    v.map_values(|s: String| s@)
}

/// The text of an extraction's result.
pub open spec fn result_view(r: Result<Vec<String>, ExtractError>) -> Result<Seq<Seq<char>>, ExtractError> {
    match r {
        Ok(v) => Ok(lines_view(v@)),
        Err(e) => Err(e),
    }
}

/// Writes the line of one field.
pub fn format_field(f: &FieldRecord) -> (r: String)
    ensures
        r@ == field_line(f@),
{
    let mut out = f.tag.clone();
    out.append(" ");
    let label = ifd_text(f.ifd_num);
    out.append(label.as_str());
    out.append(" ");
    out.append(f.value.as_str());
    proof {
        reveal_strlit(" ");
    }
    out
}

/// Writes the lines of `fields`: one per field, in the same order.
pub fn format_fields(fields: &Vec<FieldRecord>) -> (r: Vec<String>)
    ensures
        lines_view(r@) == field_lines(fields@.map_values(|f: FieldRecord| f@)),
{
    let mut out: Vec<String> = Vec::new();
    let mut i: usize = 0;
    while i < fields.len()
        invariant
            i <= fields@.len(),
            out@.len() == i,
            forall|j: int| 0 <= j < i ==> #[trigger] out@[j]@ == field_line(fields@[j]@),
        decreases fields@.len() - i,
    {
        let line = format_field(&fields[i]);
        out.push(line);
        i = i + 1;
    }
    assert(lines_view(out@) =~= field_lines(fields@.map_values(|f: FieldRecord| f@)));
    out
}

/// Reads the metadata container in the file contents `bytes` and writes one
/// line per field, in the container's order.
pub fn extract_lines(bytes: &[u8]) -> (r: Result<Vec<String>, ExtractError>)
    ensures
        result_view(r) == extraction(bytes@),
{
    match read_container_fields(bytes) {
        Ok(fields) => Ok(format_fields(&fields)),
        Err(_) => Err(ExtractError::MalformedContainer),
    }
}

/// Extracts from each file of a batch, in order. An entry is `None` where
/// the file could not be read; that entry fails alone and every other entry
/// is still processed.
pub fn extract_batch(files: &Vec<Option<Vec<u8>>>) -> (r: Vec<Result<Vec<String>, ExtractError>>)
    ensures
        r@.len() == files@.len(),
        forall|i: int| 0 <= i < files@.len() ==> result_view(#[trigger] r@[i]) == match files@[i] {
            Some(b) => extraction(b@),
            None => Err(ExtractError::PathNotFound),
        },
{
    let mut out: Vec<Result<Vec<String>, ExtractError>> = Vec::new();
    let mut i: usize = 0;
    while i < files.len()
        invariant
            i <= files@.len(),
            out@.len() == i,
            forall|j: int| 0 <= j < i ==> result_view(#[trigger] out@[j]) == match files@[j] {
                Some(b) => extraction(b@),
                None => Err(ExtractError::PathNotFound),
            },
        decreases files@.len() - i,
    {
        let one = match &files[i] {
            Some(b) => extract_lines(b.as_slice()),
            None => Err(ExtractError::PathNotFound),
        };
        out.push(one);
        i = i + 1;
    }
    out
}

/// One line per field: the lines are as many as the fields, and the line of
/// each field carries that field's directory label between its tag name and
/// its value.
pub proof fn lines_follow_fields(fs: Seq<FieldView>)
    ensures
        field_lines(fs).len() == fs.len(),
        forall|i: int| 0 <= i < fs.len() ==> {
            let line = #[trigger] field_lines(fs)[i];
            let start = fs[i].0.len() + 1int;
            &&& line.subrange(0, fs[i].0.len() as int) == fs[i].0
            &&& line.subrange(start, start + ifd_label(fs[i].1).len() as int) == ifd_label(fs[i].1)
        },
{
    reveal_strlit(" ");
    assert forall|i: int| 0 <= i < fs.len() implies {
        let line = #[trigger] field_lines(fs)[i];
        let start = fs[i].0.len() + 1int;
        &&& line.subrange(0, fs[i].0.len() as int) == fs[i].0
        &&& line.subrange(start, start + ifd_label(fs[i].1).len() as int) == ifd_label(fs[i].1)
    } by {
        let f = fs[i];
        let start = f.0.len() + 1int;
        assert(field_lines(fs)[i].subrange(0, f.0.len() as int) =~= f.0);
        assert(field_lines(fs)[i].subrange(start, start + ifd_label(f.1).len() as int) =~= ifd_label(f.1));
    }
}

/// A container that parses and holds no field yields no lines, and no error.
pub proof fn empty_container_yields_no_lines(bytes: Seq<u8>)
    requires
        container_fields(bytes) == Some(Seq::<FieldView>::empty()),
    ensures
        extraction(bytes) == Ok::<Seq<Seq<char>>, ExtractError>(Seq::empty()),
{
    assert(field_lines(Seq::<FieldView>::empty()) =~= Seq::<Seq<char>>::empty());
}

/// Extraction depends on the file contents alone: two runs over the same
/// contents give the same result.
pub proof fn extraction_is_repeatable(bytes: Seq<u8>, first: Result<Seq<Seq<char>>, ExtractError>, second: Result<Seq<Seq<char>>, ExtractError>)
    requires
        first == extraction(bytes),
        second == extraction(bytes),
    ensures
        first == second,
{
}

} // verus!
