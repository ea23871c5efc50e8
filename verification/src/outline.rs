//! Lists of subscriptions in OPML: what an imported list asks to be stored, and the
//! document that lists what is stored. Reading the XML of a list is the work of the `opml`
//! crate.

use vstd::prelude::*;
use vstd::string::StringExecFns;
use crate::error::{ErrorKind, IngestError, IngestErrorView};
use crate::models::{Feed, FeedView, Folder, FolderView, feed_views, folder_views, opt_text};
use crate::text::chars_of;

verus! {

/// An outline inside another one.
#[derive(Debug)]
pub struct OutlineLeaf {
    pub text: String,
    /// The URL of the feed, where the outline stands for one.
    pub xml_url: Option<String>,
}

pub struct OutlineLeafView {
    pub text: Seq<char>,
    pub xml_url: Option<Seq<char>>,
}

impl View for OutlineLeaf {
    type V = OutlineLeafView;

    open spec fn view(&self) -> OutlineLeafView {
        OutlineLeafView { text: self.text@, xml_url: opt_text(self.xml_url) }
    }
}

/// The views of a sequence of inner outlines.
pub open spec fn leaf_views(leaves: Seq<OutlineLeaf>) -> Seq<OutlineLeafView> {
    Seq::new(leaves.len(), |i: int| leaves[i]@)
}

/// An outline at the top of a list, with the outlines directly inside it.
#[derive(Debug)]
pub struct OutlineNode {
    pub text: String,
    /// The URL of the feed, where the outline stands for one.
    pub xml_url: Option<String>,
    pub children: Vec<OutlineLeaf>,
}

pub struct OutlineNodeView {
    pub text: Seq<char>,
    pub xml_url: Option<Seq<char>>,
    pub children: Seq<OutlineLeafView>,
}

impl View for OutlineNode {
    type V = OutlineNodeView;

    open spec fn view(&self) -> OutlineNodeView {
        OutlineNodeView {
            text: self.text@,
            xml_url: opt_text(self.xml_url),
            children: leaf_views(self.children@),
        }
    }
}

/// The views of a sequence of outlines.
pub open spec fn node_views(nodes: Seq<OutlineNode>) -> Seq<OutlineNodeView> {
    Seq::new(nodes.len(), |i: int| nodes[i]@)
}

/// A feed that a list names.
#[derive(Debug)]
pub struct FeedRef {
    pub name: String,
    pub url: String,
}

pub struct FeedRefView {
    pub name: Seq<char>,
    pub url: Seq<char>,
}

impl View for FeedRef {
    type V = FeedRefView;

    open spec fn view(&self) -> FeedRefView {
        FeedRefView { name: self.name@, url: self.url@ }
    }
}

/// The views of a sequence of named feeds.
pub open spec fn ref_views(refs: Seq<FeedRef>) -> Seq<FeedRefView> {
    Seq::new(refs.len(), |i: int| refs[i]@)
}

/// One thing that an imported list asks for.
#[derive(Debug)]
pub enum ImportStep {
    /// Make sure of the folder, and put the feeds into it.
    Folder { name: String, feeds: Vec<FeedRef> },
    /// Put the feed into the folder for feeds that have none.
    Loose { feed: FeedRef },
}

pub enum ImportStepView {
    Folder { name: Seq<char>, feeds: Seq<FeedRefView> },
    Loose { feed: FeedRefView },
}

impl View for ImportStep {
    type V = ImportStepView;

    open spec fn view(&self) -> ImportStepView {
        match self {
            ImportStep::Folder { name, feeds } => ImportStepView::Folder {
                name: name@,
                feeds: ref_views(feeds@),
            },
            ImportStep::Loose { feed } => ImportStepView::Loose { feed: feed@ },
        }
    }
}

/// The views of a sequence of steps.
pub open spec fn step_views(steps: Seq<ImportStep>) -> Seq<ImportStepView> {
    Seq::new(steps.len(), |i: int| steps[i]@)
}

/// The outlines at the top of the list that `xml` holds, each with the outlines
/// directly inside it; or the words of the error where `xml` holds no list.
pub uninterp spec fn opml_outlines(xml: Seq<char>) -> Result<Seq<OutlineNodeView>, Seq<char>>;

/// The view of the outlines read, or of the error.
pub open spec fn outlines_view(r: Result<Vec<OutlineNode>, String>) -> Result<
    Seq<OutlineNodeView>,
    Seq<char>,
> {
    match r {
        Ok(nodes) => Ok(node_views(nodes@)),
        Err(words) => Err(words@),
    }
}

/// `opml::OPML::from_str`: of each outline of the body its `text`, its `xml_url` and,
/// of each outline directly inside it, the same two; or the error as `to_string` writes
/// it.
#[verifier::external_body]
fn parse_outlines(xml: &str) -> (r: Result<Vec<OutlineNode>, String>)
    ensures
        outlines_view(r) == opml_outlines(xml@),
{
    match opml::OPML::from_str(xml) {
        Ok(list) => Ok(list.body.outlines.into_iter().map(|o| OutlineNode {
            text: o.text,
            xml_url: o.xml_url,
            children: o.outlines.into_iter().map(|c| OutlineLeaf {
                text: c.text,
                xml_url: c.xml_url,
            }).collect(),
        }).collect()),
        Err(e) => Err(e.to_string()),
    }
}

/// The feeds among the outlines inside a folder: those that have a URL, in their order.
pub open spec fn folder_feeds(leaves: Seq<OutlineLeafView>) -> Seq<FeedRefView>
    decreases leaves.len(),
{
    if leaves.len() == 0 {
        Seq::empty()
    } else {
        let before = folder_feeds(leaves.drop_last());
        match leaves.last().xml_url {
            Some(url) => before.push(FeedRefView { name: leaves.last().text, url }),
            None => before,
        }
    }
}

/// What an outline at the top asks for: a folder with its feeds where it holds
/// outlines; else a feed without a folder where it has a URL; else nothing.
pub open spec fn step_of(node: OutlineNodeView) -> Option<ImportStepView> {
    if node.children.len() > 0 {
        Some(ImportStepView::Folder { name: node.text, feeds: folder_feeds(node.children) })
    } else {
        match node.xml_url {
            Some(url) => Some(ImportStepView::Loose { feed: FeedRefView { name: node.text, url } }),
            None => None,
        }
    }
}

/// What a list asks for, in the order of its outlines.
pub open spec fn import_plan(nodes: Seq<OutlineNodeView>) -> Seq<ImportStepView>
    decreases nodes.len(),
{
    if nodes.len() == 0 {
        Seq::empty()
    } else {
        let before = import_plan(nodes.drop_last());
        match step_of(nodes.last()) {
            Some(step) => before.push(step),
            None => before,
        }
    }
}

/// The failure of a text that holds no list.
pub open spec fn no_list(words: Seq<char>) -> IngestErrorView {
    IngestErrorView { kind: ErrorKind::Parse, detail: words }
}

/// What the list in `xml` asks for, or the failure where it holds none.
pub open spec fn import_of(xml: Seq<char>) -> Result<Seq<ImportStepView>, IngestErrorView> {
    match opml_outlines(xml) {
        Ok(nodes) => Ok(import_plan(nodes)),
        Err(words) => Err(no_list(words)),
    }
}

/// The view of a plan or of the failure to make one.
pub open spec fn plan_view(r: Result<Vec<ImportStep>, IngestError>) -> Result<
    Seq<ImportStepView>,
    IngestErrorView,
> {
    match r {
        Ok(steps) => Ok(step_views(steps@)),
        Err(e) => Err(e@),
    }
}

/// Collects the feeds among the outlines inside a folder.
pub fn feeds_in(leaves: &Vec<OutlineLeaf>) -> (feeds: Vec<FeedRef>)
    ensures
        ref_views(feeds@) == folder_feeds(leaf_views(leaves@)),
{
    let ghost all = leaf_views(leaves@);
    let mut feeds: Vec<FeedRef> = Vec::new();
    let mut i: usize = 0;
    assert(all.take(0) =~= Seq::<OutlineLeafView>::empty());
    assert(ref_views(feeds@) =~= Seq::<FeedRefView>::empty());
    while i < leaves.len()
        invariant
            i <= leaves.len(),
            all == leaf_views(leaves@),
            ref_views(feeds@) == folder_feeds(all.take(i as int)),
        decreases leaves.len() - i,
    {
        proof {
            let upto = all.take(i + 1);
            assert(upto.drop_last() == all.take(i as int));
            assert(upto.last() == leaves@[i as int]@);
        }
        let ghost before = ref_views(feeds@);
        match &leaves[i].xml_url {
            Some(url) => {
                let feed = FeedRef { name: leaves[i].text.clone(), url: url.clone() };
                let ghost made = feed@;
                feeds.push(feed);
                assert(ref_views(feeds@) == before.push(made));
            },
            None => {},
        }
        i = i + 1;
    }
    assert(all.take(leaves.len() as int) == all);
    feeds
}

/// Makes the plan of a list that was read.
pub fn plan_import(nodes: &Vec<OutlineNode>) -> (steps: Vec<ImportStep>)
    ensures
        step_views(steps@) == import_plan(node_views(nodes@)),
{
    let ghost all = node_views(nodes@);
    let mut steps: Vec<ImportStep> = Vec::new();
    let mut i: usize = 0;
    assert(all.take(0) =~= Seq::<OutlineNodeView>::empty());
    assert(step_views(steps@) =~= Seq::<ImportStepView>::empty());
    while i < nodes.len()
        invariant
            i <= nodes.len(),
            all == node_views(nodes@),
            step_views(steps@) == import_plan(all.take(i as int)),
        decreases nodes.len() - i,
    {
        proof {
            let upto = all.take(i + 1);
            assert(upto.drop_last() == all.take(i as int));
            assert(upto.last() == nodes@[i as int]@);
        }
        let ghost before = step_views(steps@);
        let node = &nodes[i];
        if node.children.len() > 0 {
            let step = ImportStep::Folder { name: node.text.clone(), feeds: feeds_in(&node.children) };
            let ghost made = step@;
            steps.push(step);
            assert(step_views(steps@) == before.push(made));
        } else {
            match &node.xml_url {
                Some(url) => {
                    let step = ImportStep::Loose {
                        feed: FeedRef { name: node.text.clone(), url: url.clone() },
                    };
                    let ghost made = step@;
                    steps.push(step);
                    assert(step_views(steps@) == before.push(made));
                },
                None => {},
            }
        }
        i = i + 1;
    }
    assert(all.take(nodes.len() as int) == all);
    steps
}

/// Reads a list of subscriptions and says what it asks for.
pub fn read_import(xml: &str) -> (r: Result<Vec<ImportStep>, IngestError>)
    ensures
        plan_view(r) == import_of(xml@),
{
    match parse_outlines(xml) {
        Ok(nodes) => Ok(plan_import(&nodes)),
        Err(words) => Err(IngestError { kind: ErrorKind::Parse, detail: words }),
    }
}

/// `s` as it stands inside an attribute: each double quote written as `&quot;`.
pub open spec fn escaped(s: Seq<char>) -> Seq<char>
    decreases s.len(),
{
    if s.len() == 0 {
        Seq::empty()
    } else if s.last() == '"' {
        escaped(s.drop_last()) + "&quot;"@
    } else {
        escaped(s.drop_last()).push(s.last())
    }
}

/// The line of a feed.
pub open spec fn feed_line(feed: FeedView) -> Seq<char> {
    "      <outline type=\"rss\" text=\""@ + escaped(feed.name) + "\" xmlUrl=\""@ + escaped(
        feed.url,
    ) + "\" />\n"@
}

/// The lines of the feeds, in their order.
pub open spec fn feed_lines(feeds: Seq<FeedView>) -> Seq<char>
    decreases feeds.len(),
{
    if feeds.len() == 0 {
        Seq::empty()
    } else {
        feed_lines(feeds.drop_last()) + feed_line(feeds.last())
    }
}

/// The lines of a folder: nothing where it holds no feed; else its opening line, the
/// lines of its feeds and its closing line.
pub open spec fn folder_block(folder: FolderView) -> Seq<char> {
    if folder.feeds.len() == 0 {
        Seq::empty()
    } else {
        "    <outline text=\""@ + escaped(folder.name) + "\">\n"@ + feed_lines(folder.feeds)
            + "    </outline>\n"@
    }
}

/// The lines of the folders, in their order.
pub open spec fn folder_blocks(folders: Seq<FolderView>) -> Seq<char>
    decreases folders.len(),
{
    if folders.len() == 0 {
        Seq::empty()
    } else {
        folder_blocks(folders.drop_last()) + folder_block(folders.last())
    }
}

/// The lines before the folders.
pub open spec fn document_head() -> Seq<char> {
    "<?xml version=\"1.0\" encoding=\"UTF-8\"?>\n<opml version=\"2.0\">\n  <head><title>FeedMee Export</title></head>\n  <body>\n"@
}

/// The lines after the folders.
pub open spec fn document_tail() -> Seq<char> {
    "  </body>\n</opml>\n"@
}

/// The document that lists the folders and their feeds.
pub open spec fn opml_document(folders: Seq<FolderView>) -> Seq<char> {
    document_head() + folder_blocks(folders) + document_tail()
}

/// Writes `s` to the end of `out` as it stands inside an attribute.
pub fn write_escaped(out: &mut String, s: &str)
    ensures
        final(out)@ == old(out)@ + escaped(s@),
{
    let chars = chars_of(s);
    let mut i: usize = 0;
    assert(chars@.take(0) =~= Seq::<char>::empty());
    assert(out@ =~= old(out)@ + escaped(chars@.take(0)));
    while i < chars.len()
        invariant
            i <= chars.len(),
            chars@ == s@,
            out@ == old(out)@ + escaped(chars@.take(i as int)),
        decreases chars.len() - i,
    {
        proof {
            let upto = chars@.take(i + 1);
            assert(upto.drop_last() == chars@.take(i as int));
            assert(upto.last() == chars@[i as int]);
        }
        let ghost before = out@;
        let ghost done = escaped(chars@.take(i as int));
        if chars[i] == '"' {
            out.append("&quot;");
            assert(out@ =~= old(out)@ + (done + "&quot;"@));
        } else {
            out.push(chars[i]);
            assert(out@ =~= old(out)@ + done.push(chars@[i as int]));
        }
        i = i + 1;
    }
    assert(chars@.take(chars.len() as int) == chars@);
}

/// Writes the line of a feed to the end of `out`.
pub fn write_feed(out: &mut String, feed: &Feed)
    ensures
        final(out)@ == old(out)@ + feed_line(feed@),
{
    out.append("      <outline type=\"rss\" text=\"");
    write_escaped(out, feed.name.as_str());
    out.append("\" xmlUrl=\"");
    write_escaped(out, feed.url.as_str());
    out.append("\" />\n");
    assert(out@ =~= old(out)@ + feed_line(feed@));
}

/// Writes the lines of a folder to the end of `out`.
pub fn write_folder(out: &mut String, folder: &Folder)
    ensures
        final(out)@ == old(out)@ + folder_block(folder@),
{
    if folder.feeds.len() == 0 {
        assert(out@ =~= old(out)@ + folder_block(folder@));
        return ;
    }
    out.append("    <outline text=\"");
    write_escaped(out, folder.name.as_str());
    out.append("\">\n");
    let ghost opened = out@;
    let ghost all = feed_views(folder.feeds@);
    let mut i: usize = 0;
    assert(all.take(0) =~= Seq::<FeedView>::empty());
    assert(out@ =~= opened + feed_lines(all.take(0)));
    while i < folder.feeds.len()
        invariant
            i <= folder.feeds.len(),
            all == feed_views(folder.feeds@),
            out@ == opened + feed_lines(all.take(i as int)),
        decreases folder.feeds.len() - i,
    {
        proof {
            let upto = all.take(i + 1);
            assert(upto.drop_last() == all.take(i as int));
            assert(upto.last() == folder.feeds@[i as int]@);
        }
        let ghost done = feed_lines(all.take(i as int));
        write_feed(out, &folder.feeds[i]);
        assert(out@ =~= opened + (done + feed_line(folder.feeds@[i as int]@)));
        i = i + 1;
    }
    assert(all.take(folder.feeds.len() as int) == all);
    out.append("    </outline>\n");
    assert(out@ =~= old(out)@ + folder_block(folder@));
}

/// Writes the document that lists the folders and their feeds. A folder without feeds
/// is left out.
pub fn render_opml(folders: &Vec<Folder>) -> (document: String)
    ensures
        document@ == opml_document(folder_views(folders@)),
{
    let mut out = String::new();
    out.append(
        "<?xml version=\"1.0\" encoding=\"UTF-8\"?>\n<opml version=\"2.0\">\n  <head><title>FeedMee Export</title></head>\n  <body>\n",
    );
    let ghost all = folder_views(folders@);
    let mut i: usize = 0;
    assert(all.take(0) =~= Seq::<FolderView>::empty());
    assert(out@ =~= document_head() + folder_blocks(all.take(0)));
    while i < folders.len()
        invariant
            i <= folders.len(),
            all == folder_views(folders@),
            out@ == document_head() + folder_blocks(all.take(i as int)),
        decreases folders.len() - i,
    {
        proof {
            let upto = all.take(i + 1);
            assert(upto.drop_last() == all.take(i as int));
            assert(upto.last() == folders@[i as int]@);
        }
        let ghost done = folder_blocks(all.take(i as int));
        write_folder(&mut out, &folders[i]);
        assert(out@ =~= document_head() + (done + folder_block(folders@[i as int]@)));
        i = i + 1;
    }
    assert(all.take(folders.len() as int) == all);
    out.append("  </body>\n</opml>\n");
    out
}

} // verus!
