//! The document record the application edits, and its text form: a
//! metadata block between two `+++` fences, followed by the body.
use vstd::prelude::*;
use vstd::string::*;
use uuid::Uuid;

verus! {

#[verifier::external_type_specification]
#[verifier::external_body]
pub struct ExUuid(Uuid);

/// Relies on uuid::Uuid::new_v4 for a fresh random identifier; its value is
/// left open.
pub assume_specification[ Uuid::new_v4 ]() -> Uuid;

/// Relies on the `Clone` that uuid derives for its `Copy` type `Uuid`: the
/// clone is the same identifier.
pub assume_specification[ <Uuid as Clone>::clone ](u: &Uuid) -> (r: Uuid)
    ensures
        r == *u,
;

/// A document and its metadata.
#[derive(Clone, Debug, Default, PartialEq)]
pub struct Document {
    pub id: Uuid,
    /// The `id` of the first revision of this document.
    pub origid: Uuid,
    pub authors: Vec<String>,
    pub body: String,
    pub date: String,
    /// Whether this is the newest revision.
    pub latest: bool,
    pub revision: u16,
    pub title: String,
    pub background_img: String,
    pub links: Vec<String>,
    pub slug: String,
    pub subtitle: String,
    pub tag: Vec<String>,
    pub weight: i32,
}

/// A document as a markdown file with front matter describes it.
#[derive(Clone, Debug, Default, PartialEq)]
pub struct FrontMatterDoc {
    pub author: String,
    pub body: String,
    pub date: String,
    pub tags: Vec<String>,
    pub title: String,
    pub subtitle: String,
}

/// The line that opens and closes the metadata block.
pub open spec fn fence() -> Seq<char> {
    seq!['+', '+', '+', '\n']
}

/// A document's text form: the fenced metadata block, then the body.
pub open spec fn framed(metadata: Seq<char>, body: Seq<char>) -> Seq<char> {
    fence() + metadata + fence() + body
}

impl Document {
    /// The first revision of a document read from a markdown file: a fresh
    /// identifier that also serves as `origid`, the file's single author, and
    /// the remaining optional fields empty.
    pub fn from_front_matter(item: FrontMatterDoc) -> (r: Document)
        ensures
            r.origid == r.id,
            r.authors@ == seq![item.author],
            r.body == item.body,
            r.date == item.date,
            r.latest,
            r.revision == 1,
            r.tag == item.tags,
            r.title == item.title,
            r.subtitle == item.subtitle,
            r.background_img@.len() == 0,
            r.links@.len() == 0,
            r.slug@.len() == 0,
            r.weight == 0,
    {
        let id = Uuid::new_v4();
        let mut authors: Vec<String> = Vec::new();
        authors.push(item.author);
        Document {
            id,
            origid: id,
            authors,
            body: item.body,
            date: item.date,
            latest: true,
            revision: 1,
            title: item.title,
            background_img: String::new(),
            links: Vec::new(),
            slug: String::new(),
            subtitle: item.subtitle,
            tag: item.tags,
            weight: 0,
        }
    }

    /// The document's text form, around `metadata`, its fields already
    /// written out as key/value lines.
    pub fn render(&self, metadata: &str) -> (r: String)
        ensures
            r@ == framed(metadata@, self.body@),
    {
        let mut out = String::from_str("+++\n");
        out.append(metadata);
        out.append("+++\n");
        out.append(self.body.as_str());
        proof {
            reveal_strlit("+++\n");
            assert(out@ =~= framed(metadata@, self.body@));
        }
        out
    }
}

} // verus!
