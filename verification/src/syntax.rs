//! The syntax of configuration text: lines of `key = value`, grouped under
//! `[section]` headers, with blank lines and `#` comments between them. What
//! the keys and values mean is decided elsewhere.

use vstd::prelude::*;
use crate::errors::{LaunchError, LaunchErrorModel, SyntaxFault};
use crate::text::{chars_of, find_from, scan, slice, split, split_on, string_of, trim, trimmed, views};

verus! {

/// One `key = value` line.
#[derive(Clone, Debug, PartialEq, Eq)]
pub struct Field {
    pub key: String,
    pub value: String,
    /// The line on which the field stands, counted from 1.
    pub line: usize,
}

/// The model of a `Field`.
pub struct FieldModel {
    pub key: Seq<char>,
    pub value: Seq<char>,
    pub line: nat,
}

impl View for Field {
    type V = FieldModel;

    open spec fn view(&self) -> FieldModel {
        FieldModel { key: self.key@, value: self.value@, line: self.line as nat }
    }
}

/// A `[name]` header and the fields that follow it.
#[derive(Clone, Debug, PartialEq, Eq)]
pub struct Section {
    pub name: String,
    /// The line of the header, counted from 1.
    pub line: usize,
    pub fields: Vec<Field>,
}

/// The model of a `Section`.
pub struct SectionModel {
    pub name: Seq<char>,
    pub line: nat,
    pub fields: Seq<FieldModel>,
}

impl View for Section {
    type V = SectionModel;

    open spec fn view(&self) -> SectionModel {
        SectionModel { name: self.name@, line: self.line as nat, fields: views(self.fields@) }
    }
}

/// A configuration as written: the fields before the first header, and the
/// sections in order.
#[derive(Clone, Debug, PartialEq, Eq)]
pub struct Document {
    pub fields: Vec<Field>,
    pub sections: Vec<Section>,
}

/// The model of a `Document`.
pub struct DocumentModel {
    pub fields: Seq<FieldModel>,
    pub sections: Seq<SectionModel>,
}

impl View for Document {
    type V = DocumentModel;

    open spec fn view(&self) -> DocumentModel {
        DocumentModel { fields: views(self.fields@), sections: views(self.sections@) }
    }
}

/// What one line of configuration text is.
#[derive(Clone, Debug, PartialEq, Eq)]
pub enum Line {
    /// Nothing but white space, or a comment.
    Blank,
    Header { name: String },
    Entry { key: String, value: String },
    Broken { fault: SyntaxFault },
}

/// The model of a `Line`.
pub enum LineModel {
    Blank,
    Header { name: Seq<char> },
    Entry { key: Seq<char>, value: Seq<char> },
    Broken { fault: SyntaxFault },
}

impl View for Line {
    type V = LineModel;

    open spec fn view(&self) -> LineModel {
        match *self {
            Line::Blank => LineModel::Blank,
            Line::Header { name } => LineModel::Header { name: name@ },
            Line::Entry { key, value } => LineModel::Entry { key: key@, value: value@ },
            Line::Broken { fault } => LineModel::Broken { fault },
        }
    }
}

/// What a line is. White space around the line, the key, the value and a
/// section's name does not count. A line that starts with `#` is a comment; one
/// that starts with `[` must end with `]` and name a section; any other holds a
/// key, the first `=`, and a value, which may be empty.
pub open spec fn classify(line: Seq<char>) -> LineModel {
    let t = trim(line);
    if t.len() == 0 || t[0] == '#' {
        LineModel::Blank
    } else if t[0] == '[' {
        if t.len() >= 2 && t.last() == ']' && trim(t.subrange(1, t.len() - 1)).len() > 0 {
            LineModel::Header { name: trim(t.subrange(1, t.len() - 1)) }
        } else {
            LineModel::Broken { fault: SyntaxFault::MalformedSection }
        }
    } else {
        let k = scan(t, '=', 0);
        if k >= t.len() {
            LineModel::Broken { fault: SyntaxFault::MissingSeparator }
        } else if trim(t.take(k)).len() == 0 {
            LineModel::Broken { fault: SyntaxFault::EmptyKey }
        } else {
            LineModel::Entry { key: trim(t.take(k)), value: trim(t.skip(k + 1)) }
        }
    }
}

/// The document with no field and no section.
pub open spec fn blank_document() -> DocumentModel {
    DocumentModel { fields: Seq::empty(), sections: Seq::empty() }
}

/// The document after the line `l`, which stands on line `number`: a header
/// opens a section, an entry joins the section opened last, or the fields
/// before all sections if none is open.
pub open spec fn absorb(doc: DocumentModel, number: nat, l: LineModel) -> DocumentModel {
    match l {
        LineModel::Blank => doc,
        LineModel::Broken { .. } => doc,
        LineModel::Header { name } => DocumentModel {
            fields: doc.fields,
            sections: doc.sections.push(SectionModel { name, line: number, fields: Seq::empty() }),
        },
        LineModel::Entry { key, value } => {
            let field = FieldModel { key, value, line: number };
            if doc.sections.len() == 0 {
                DocumentModel { fields: doc.fields.push(field), sections: doc.sections }
            } else {
                let open = doc.sections.last();
                DocumentModel {
                    fields: doc.fields,
                    sections: doc.sections.drop_last().push(
                        SectionModel {
                            name: open.name,
                            line: open.line,
                            fields: open.fields.push(field),
                        },
                    ),
                }
            }
        },
    }
}

/// The document that the first `n` lines give, or the first broken line among
/// them with its number.
pub open spec fn parsed(lines: Seq<Seq<char>>, n: int) -> Result<DocumentModel, LaunchErrorModel>
    decreases n,
{
    if n <= 0 {
        Ok(blank_document())
    } else {
        match parsed(lines, n - 1) {
            Err(e) => Err(e),
            Ok(doc) => match classify(lines[n - 1]) {
                LineModel::Broken { fault } => Err(
                    LaunchErrorModel::ConfigParse { line: n as nat, fault },
                ),
                l => Ok(absorb(doc, n as nat, l)),
            },
        }
    }
}

/// The document that a configuration text gives: its lines, split at each line
/// feed, taken in order.
pub open spec fn document_of(text: Seq<char>) -> Result<DocumentModel, LaunchErrorModel> {
    let lines = split(text, '\n');
    parsed(lines, lines.len() as int)
}

/// The model of what `parse_document` returns.
pub open spec fn document_outcome(r: Result<Document, LaunchError>) -> Result<
    DocumentModel,
    LaunchErrorModel,
> {
    match r {
        Ok(d) => Ok(d@),
        Err(e) => Err(e@),
    }
}

/// What the line `line` is.
pub fn classify_line(line: &Vec<char>) -> (out: Line)
    ensures
        out@ == classify(line@),
{
    let t = trimmed(line);
    if t.len() == 0 || t[0] == '#' {
        return Line::Blank;
    }
    if t[0] == '[' {
        if t.len() >= 2 && t[t.len() - 1] == ']' {
            let inner = trimmed(&slice(&t, 1, t.len() - 1));
            if inner.len() > 0 {
                return Line::Header { name: string_of(&inner) };
            }
        }
        return Line::Broken { fault: SyntaxFault::MalformedSection };
    }
    let k = find_from(&t, '=', 0);
    if k >= t.len() {
        return Line::Broken { fault: SyntaxFault::MissingSeparator };
    }
    let key = trimmed(&slice(&t, 0, k));
    if key.len() == 0 {
        return Line::Broken { fault: SyntaxFault::EmptyKey };
    }
    let value = trimmed(&slice(&t, k + 1, t.len()));
    Line::Entry { key: string_of(&key), value: string_of(&value) }
}

/// Reading lines fails with a syntax error only, at one of the lines read.
pub proof fn lemma_parse_errors(lines: Seq<Seq<char>>, n: int)
    requires
        0 <= n <= lines.len(),
    ensures
        parsed(lines, n) matches Err(e) ==> (e matches LaunchErrorModel::ConfigParse { line, fault }
            && 1 <= line <= n && classify(lines[line - 1]) == (LineModel::Broken { fault })),
    decreases n,
{
    if n > 0 {
        lemma_parse_errors(lines, n - 1);
    }
}

/// Once a line is broken, later lines change nothing.
pub proof fn lemma_error_stays(lines: Seq<Seq<char>>, k: int, n: int)
    requires
        0 <= k <= n,
        parsed(lines, k) is Err,
    ensures
        parsed(lines, n) == parsed(lines, k),
    decreases n - k,
{
    if k < n {
        lemma_error_stays(lines, k, n - 1);
    }
}

/// Reads configuration text into a document. Fails at the first line that is
/// malformed, with its number and what is wrong with it.
pub fn parse_document(text: &str) -> (out: Result<Document, LaunchError>)
    ensures
        document_outcome(out) == document_of(text@),
{
    let chars = chars_of(text);
    let lines = split_on(&chars, '\n');
    let ghost model = views(lines@);
    let mut fields: Vec<Field> = Vec::new();
    let mut sections: Vec<Section> = Vec::new();
    let mut i: usize = 0;
    assert(views(fields@) =~= Seq::<FieldModel>::empty());
    assert(views(sections@) =~= Seq::<SectionModel>::empty());
    while i < lines.len()
        invariant
            i <= lines.len(),
            model == views(lines@),
            model == split(text@, '\n'),
            parsed(model, i as int) == Ok::<DocumentModel, LaunchErrorModel>(
                DocumentModel { fields: views(fields@), sections: views(sections@) },
            ),
        decreases lines.len() - i,
    {
        let ghost doc = DocumentModel { fields: views(fields@), sections: views(sections@) };
        let ghost old_fields = fields@;
        let ghost old_sections = sections@;
        let number: usize = i + 1;
        let line = classify_line(&lines[i]);
        assert(line@ == classify(model[i as int]));
        match line {
            Line::Blank => {},
            Line::Broken { fault } => {
                proof {
                    assert(parsed(model, i + 1) == Err::<DocumentModel, LaunchErrorModel>(
                        LaunchErrorModel::ConfigParse { line: number as nat, fault },
                    ));
                    lemma_error_stays(model, i + 1, model.len() as int);
                }
                return Err(LaunchError::ConfigParse { line: number, fault });
            },
            Line::Header { name } => {
                let section = Section { name, line: number, fields: Vec::new() };
                assert(views(section.fields@) =~= Seq::<FieldModel>::empty());
                sections.push(section);
                assert(views(sections@) =~= views(old_sections).push(section@));
            },
            Line::Entry { key, value } => {
                let field = Field { key, value, line: number };
                if sections.len() == 0 {
                    fields.push(field);
                    assert(views(fields@) =~= views(old_fields).push(field@));
                } else {
                    let mut open = sections.pop().unwrap();
                    let ghost before = open;
                    open.fields.push(field);
                    assert(views(open.fields@) =~= views(before.fields@).push(field@));
                    sections.push(open);
                    assert(views(old_sections).last() == before@);
                    assert(views(sections@) =~= views(old_sections).drop_last().push(open@));
                }
            },
        }
        i += 1;
    }
    Ok(Document { fields, sections })
}

} // verus!
