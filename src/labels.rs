//! How completion items of the language server are shown in the editor.
use vstd::prelude::*;
use vstd::string::*;

verus! {

/// The kind that the language server gives a completion item.
#[derive(Debug, Clone, Copy, PartialEq, Eq, Structural)]
pub enum CompletionKind {
    Text,
    Method,
    Function,
    Constructor,
    Field,
    Variable,
    Class,
    Interface,
    Module,
    Property,
    Unit,
    Value,
    Enum,
    Keyword,
    Snippet,
    Color,
    File,
    Reference,
    Folder,
    EnumMember,
    Constant,
    Struct,
    Event,
    Operator,
    TypeParameter,
    Other(i32),
}

/// A piece of a label's text, with the name of the highlight it is drawn in.
#[derive(Debug)]
pub struct LabelSpan {
    pub text: String,
    pub highlight: Option<String>,
}

impl View for LabelSpan {
    type V = (Seq<char>, Option<Seq<char>>);

    open spec fn view(&self) -> (Seq<char>, Option<Seq<char>>) {
        (
            self.text@,
            match self.highlight {
                Some(h) => Some(h@),
                None => None,
            },
        )
    }
}

/// A completion label: the code it shows, how that code is highlighted piece
/// by piece, and the byte range of the code that filtering matches against.
#[derive(Debug)]
pub struct CodeLabel {
    pub code: String,
    pub spans: Vec<LabelSpan>,
    pub filter_start: usize,
    pub filter_end: usize,
}

/// What a completion label holds.
pub struct LabelModel {
    pub code: Seq<char>,
    pub spans: Seq<(Seq<char>, Option<Seq<char>>)>,
    pub filter_start: usize,
    pub filter_end: usize,
}

impl View for CodeLabel {
    type V = LabelModel;

    open spec fn view(&self) -> LabelModel {
        LabelModel {
            code: self.code@,
            spans: self.spans@.map_values(|s: LabelSpan| s@),
            filter_start: self.filter_start,
            filter_end: self.filter_end,
        }
    }
}

/// Number of bytes in the UTF-8 encoding of `s`, as `str::len` gives it.
pub open spec fn utf8_len(s: Seq<char>) -> usize {
    vstd::utf8::encode_utf8(s).len() as usize
}

/// The highlight of a kind whose label is its text drawn in one piece.
pub open spec fn single_highlight(kind: CompletionKind) -> Option<Seq<char>> {
    match kind {
        CompletionKind::Value => Some("string"@),
        CompletionKind::File => Some("string.special"@),
        CompletionKind::Field => Some("property"@),
        CompletionKind::Class => Some("type"@),
        CompletionKind::Snippet => Some("keyword"@),
        CompletionKind::EnumMember => Some("constant"@),
        CompletionKind::Reference => Some("function"@),
        CompletionKind::Event => Some("string"@),
        _ => None,
    }
}

/// The label shown for a completion item with text `label` and kind `kind`;
/// `None` leaves the item to the editor's default rendering.
pub open spec fn label_rule(label: Seq<char>, kind: Option<CompletionKind>) -> Option<LabelModel> {
    match kind {
        None => None,
        Some(CompletionKind::Module) => Some(
            LabelModel {
                code: "x-"@ + label,
                spans: seq![("x-"@, Some("tag"@)), (label, Some("tag"@))],
                filter_start: 0,
                filter_end: utf8_len("x-"@ + label),
            },
        ),
        Some(CompletionKind::Method) => Some(
            LabelModel {
                code: label + "()"@,
                spans: seq![(label, Some("function"@)), ("()"@, Some("punctuation"@))],
                filter_start: 0,
                filter_end: utf8_len(label),
            },
        ),
        Some(k) => match single_highlight(k) {
            Some(h) => Some(
                LabelModel {
                    code: label,
                    spans: seq![(label, Some(h))],
                    filter_start: 0,
                    filter_end: utf8_len(label),
                },
            ),
            None => None,
        },
    }
}

/// The view of an optional label.
pub open spec fn label_view(r: Option<CodeLabel>) -> Option<LabelModel> {
    match r {
        Some(l) => Some(l@),
        None => None,
    }
}

/// A piece of text drawn in the highlight `highlight`.
fn span(text: &str, highlight: &str) -> (r: LabelSpan)
    ensures
        r@ == (text@, Some(highlight@)),
{
    LabelSpan { text: text.to_owned(), highlight: Some(highlight.to_owned()) }
}

/// A label that shows `label` in one piece drawn in `highlight`.
fn single_label(label: &String, highlight: &str) -> (r: CodeLabel)
    ensures
        r@ == (LabelModel {
            code: label@,
            spans: seq![(label@, Some(highlight@))],
            filter_start: 0,
            filter_end: utf8_len(label@),
        }),
{
    let mut spans: Vec<LabelSpan> = Vec::new();
    spans.push(span(label.as_str(), highlight));
    let r = CodeLabel {
        code: label.clone(),
        spans,
        filter_start: 0,
        filter_end: label.as_str().len(),
    };
    assert(r@.spans =~= seq![(label@, Some(highlight@))]);
    r
}

/// The label of a component: the text behind a `x-` tag prefix.
fn component_label(label: &String) -> (r: CodeLabel)
    ensures
        Some(r@) == label_rule(label@, Some(CompletionKind::Module)),
{
    let mut code = "x-".to_owned();
    code.append(label.as_str());
    let filter_end = code.as_str().len();
    let mut spans: Vec<LabelSpan> = Vec::new();
    spans.push(span("x-", "tag"));
    spans.push(span(label.as_str(), "tag"));
    let r = CodeLabel { code, spans, filter_start: 0, filter_end };
    assert(r@.spans =~= seq![("x-"@, Some("tag"@)), (label@, Some("tag"@))]);
    r
}

/// The label of a method: the name followed by a pair of parentheses, of
/// which only the name is matched by filtering.
fn method_label(label: &String) -> (r: CodeLabel)
    ensures
        Some(r@) == label_rule(label@, Some(CompletionKind::Method)),
{
    let mut code = label.clone();
    code.append("()");
    let mut spans: Vec<LabelSpan> = Vec::new();
    spans.push(span(label.as_str(), "function"));
    spans.push(span("()", "punctuation"));
    let r = CodeLabel { code, spans, filter_start: 0, filter_end: label.as_str().len() };
    assert(r@.spans =~= seq![(label@, Some("function"@)), ("()"@, Some("punctuation"@))]);
    r
}

/// The label shown for a completion item with text `label` and kind `kind`.
pub fn label_for_completion(label: &String, kind: Option<CompletionKind>) -> (r: Option<CodeLabel>)
    ensures
        label_view(r) == label_rule(label@, kind),
{
    match kind {
        None => None,
        Some(k) => match k {
            CompletionKind::Value => Some(single_label(label, "string")),
            CompletionKind::File => Some(single_label(label, "string.special")),
            CompletionKind::Field => Some(single_label(label, "property")),
            CompletionKind::Class => Some(single_label(label, "type")),
            CompletionKind::Module => Some(component_label(label)),
            CompletionKind::Snippet => Some(single_label(label, "keyword")),
            CompletionKind::EnumMember => Some(single_label(label, "constant")),
            CompletionKind::Reference => Some(single_label(label, "function")),
            CompletionKind::Method => Some(method_label(label)),
            CompletionKind::Event => Some(single_label(label, "string")),
            _ => None,
        },
    }
}

} // verus!
