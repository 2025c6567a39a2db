use vstd::prelude::*;
use crate::confluence::Space;
use crate::json::json_of;

verus! {

/// A reference to a parent page by its remote id.
#[derive(Debug, PartialEq, Eq)]
pub struct AncestorRef {
    pub id: String,
}

/// The ids that a sequence of ancestor references names, in order.
pub open spec fn ancestor_ids(a: Seq<AncestorRef>) -> Seq<Seq<char>> {
    a.map_values(|r: AncestorRef| r@)
}

impl View for AncestorRef {
    type V = Seq<char>;

    open spec fn view(&self) -> Seq<char> {
        self.id@
    }
}

/// The content to be written to one page.
#[derive(Debug, PartialEq, Eq)]
pub struct PageDraft {
    pub title: String,
    pub space_key: String,
    pub version: u64,
    pub body_text: String,
    pub ancestors: Vec<AncestorRef>,
}

/// What a draft holds, as plain values.
pub struct DraftView {
    pub title: Seq<char>,
    pub space_key: Seq<char>,
    pub version: int,
    pub body_text: Seq<char>,
    pub ancestors: Seq<Seq<char>>,
}

impl View for PageDraft {
    type V = DraftView;

    open spec fn view(&self) -> DraftView {
        DraftView {
            title: self.title@,
            space_key: self.space_key@,
            version: self.version as int,
            body_text: self.body_text@,
            ancestors: ancestor_ids(self.ancestors@),
        }
    }
}

/// The version record of a payload.
#[derive(Debug, PartialEq, Eq)]
pub struct Revision {
    pub number: u64,
}

/// Page text together with the markup it is written in.
#[derive(Debug, PartialEq, Eq)]
pub struct Storage {
    pub value: String,
    pub representation: String,
}

#[derive(Debug, PartialEq, Eq)]
pub struct StorageBody {
    pub storage: Storage,
}

/// The payload of a create or update request; its fields follow the wire
/// format one for one (`page_type` is the field named `type` on the wire).
#[derive(Debug, PartialEq, Eq)]
pub struct Document {
    pub version: Revision,
    pub page_type: String,
    pub space: Space,
    pub title: String,
    pub body: StorageBody,
    pub ancestors: Vec<AncestorRef>,
}

/// What a payload holds, as plain values.
pub struct DocumentView {
    pub version: int,
    pub page_type: Seq<char>,
    pub space_key: Seq<char>,
    pub title: Seq<char>,
    pub body_value: Seq<char>,
    pub representation: Seq<char>,
    pub ancestors: Seq<Seq<char>>,
}

impl View for Document {
    type V = DocumentView;

    open spec fn view(&self) -> DocumentView {
        DocumentView {
            version: self.version.number as int,
            page_type: self.page_type@,
            space_key: self.space.key@,
            title: self.title@,
            body_value: self.body.storage.value@,
            representation: self.body.storage.representation@,
            ancestors: ancestor_ids(self.ancestors@),
        }
    }
}

/// The content type every payload declares.
pub open spec fn page_type() -> Seq<char> {
    "page"@
}

/// The markup tag the page text is submitted under.
pub open spec fn wiki_representation() -> Seq<char> {
    "wiki"@
}

/// The payload that a draft renders to.
pub open spec fn render_view(d: DraftView) -> DocumentView {
    DocumentView {
        version: d.version,
        page_type: page_type(),
        space_key: d.space_key,
        title: d.title,
        body_value: d.body_text,
        representation: wiki_representation(),
        ancestors: d.ancestors,
    }
}

/// Builds the wire payload of a draft. The text is passed through untouched.
pub fn render(draft: PageDraft) -> (doc: Document)
    ensures
        doc@ == render_view(draft@),
{
    let PageDraft { title, space_key, version, body_text, ancestors } = draft;
    Document {
        version: Revision { number: version },
        page_type: String::from_str("page"),
        space: Space { key: space_key },
        title,
        body: StorageBody {
            storage: Storage { value: body_text, representation: String::from_str("wiki") },
        },
        ancestors,
    }
}

/// Rendering is a function of the draft's contents: two renderings of equal
/// drafts are equal payloads, whose JSON texts are equal character for character.
pub proof fn render_is_deterministic(a: PageDraft, b: PageDraft, da: Document, db: Document)
    requires
        a@ == b@,
        da@ == render_view(a@),
        db@ == render_view(b@),
    ensures
        da@ == db@,
        json_of(da@) == json_of(db@),
{
}

/// The page text of a rendered payload is the draft's text, whatever it holds.
pub proof fn render_keeps_text(draft: PageDraft, doc: Document)
    requires
        doc@ == render_view(draft@),
    ensures
        doc.body.storage.value@ == draft.body_text@,
{
}

} // verus!
