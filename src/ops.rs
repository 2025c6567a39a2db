use vstd::prelude::*;
use crate::confluence::{
    classify, failure_error, ConfluencePage, ContentView, Failure, Request, RequestKind,
};
use crate::content::{render, render_view, AncestorRef, DraftView, PageDraft};
use crate::error::SyncError;

verus! {

/// The draft that revises a page found by search: same title and space, the
/// next version, the new text, and no ancestors (parents are set on create only).
pub open spec fn update_draft_view(page: ConfluencePage, text: Seq<char>) -> DraftView {
    DraftView {
        title: page.title@,
        space_key: page.space.key@,
        version: page.version.number + 1,
        body_text: text,
        ancestors: seq![],
    }
}

/// The draft of a new page: version one, under the given ancestors.
pub open spec fn create_draft_view(
    title: Seq<char>,
    space: Seq<char>,
    text: Seq<char>,
    ancestors: Seq<Seq<char>>,
) -> DraftView {
    DraftView { title, space_key: space, version: 1, body_text: text, ancestors }
}

/// Builds the draft that revises `current` with `source_text`.
pub fn get_update_content(current: ConfluencePage, source_text: String) -> (d: PageDraft)
    ensures
        d@ == update_draft_view(current, source_text@),
{
    let ConfluencePage { id: _, title, version, space } = current;
    let d = PageDraft {
        title,
        space_key: space.key,
        version: version.number as u64 + 1,
        body_text: source_text,
        ancestors: Vec::new(),
    };
    assert(d@.ancestors =~= seq![]);
    d
}

/// Builds the draft of a new page, under `parent` when one is given.
pub fn create_content(title: String, space: String, source_text: String, parent: Option<String>) -> (d: PageDraft)
    ensures
        d@ == create_draft_view(
            title@,
            space@,
            source_text@,
            match parent {
                Some(id) => seq![id@],
                None => seq![],
            },
        ),
{
    let mut ancestors: Vec<AncestorRef> = Vec::new();
    match parent {
        Some(id) => {
            ancestors.push(AncestorRef { id });
        },
        None => {},
    }
    let d = PageDraft { title, space_key: space, version: 1, body_text: source_text, ancestors };
    assert(d@.ancestors =~= match parent {
        Some(id) => seq![id@],
        None => seq![],
    });
    d
}

/// What the caller reports back after performing a request.
#[derive(Debug, PartialEq, Eq)]
pub enum Reply {
    /// The request failed.
    Failed(Failure),
    /// A search succeeded with these results, in the service's order.
    Pages(Vec<ConfluencePage>),
    /// A fetch succeeded with this page.
    Content(ContentView),
    /// A create or update was accepted.
    Accepted,
}

/// What a finished operation yields.
#[derive(Debug, PartialEq, Eq)]
pub enum Outcome {
    /// The page was written.
    Written,
    /// The page that was asked for.
    Content(ContentView),
    /// The page that a search found first.
    Found(ConfluencePage),
}

/// What the caller is to do next.
#[derive(Debug, PartialEq, Eq)]
pub enum Step {
    /// Perform this request and report its reply.
    Send(Request),
    /// The reply did not answer the request in flight; it was ignored.
    Pending,
    /// The operation is over.
    Finish(Result<Outcome, SyncError>),
}

/// Where an operation stands: which reply it waits for, and what it still
/// needs to go on.
#[derive(Debug, PartialEq, Eq)]
pub enum Session {
    /// An update waits for the search for its page.
    FindingPage { title: String, source_text: String },
    /// A create waits for the search for its parent page.
    FindingParent { space: String, title: String, source_text: String, parent: String },
    /// A lookup waits for the search for its page.
    FindingView { title: String },
    /// A plain search waits for its results.
    Searching { title: String },
    /// A create was sent.
    Creating,
    /// An update was sent.
    Updating,
    /// A fetch by id was sent.
    Reading,
    /// Nothing is in flight and nothing follows.
    Finished,
}

/// The session waits for the reply to a search.
pub open spec fn awaits_search(s: Session) -> bool {
    s is FindingPage || s is FindingParent || s is FindingView || s is Searching
}

/// The reply kind a session waits for.
pub open spec fn awaited(s: Session) -> Option<RequestKind> {
    match s {
        Session::FindingPage { .. } => Some(RequestKind::Search),
        Session::FindingParent { .. } => Some(RequestKind::Search),
        Session::FindingView { .. } => Some(RequestKind::Search),
        Session::Searching { .. } => Some(RequestKind::Search),
        Session::Creating => Some(RequestKind::Create),
        Session::Updating => Some(RequestKind::Update),
        Session::Reading => Some(RequestKind::Fetch),
        Session::Finished => None,
    }
}

/// The reply answers a request of the awaited kind.
pub open spec fn answers(kind: RequestKind, r: Reply) -> bool {
    match r {
        Reply::Failed(_) => true,
        Reply::Pages(_) => kind == RequestKind::Search,
        Reply::Content(_) => kind == RequestKind::Fetch,
        Reply::Accepted => kind == RequestKind::Create || kind == RequestKind::Update,
    }
}

/// The failure of the request in flight ends the operation with its error.
pub open spec fn fails_with(s2: Session, step: Step, kind: RequestKind, f: Failure) -> bool {
    s2 is Finished && step == Step::Finish(Err(failure_error(kind, f)))
}

/// A search came back empty: the operation ends, the title not found.
pub open spec fn ends_not_found(s2: Session, step: Step, title: String) -> bool {
    s2 is Finished && step == Step::Finish(Err(SyncError::NotFound { title }))
}

/// One step of an operation: in session `s` the reply `r` comes; the
/// session becomes `s2` and the caller is told `step`.
pub open spec fn advances(s: Session, r: Reply, s2: Session, step: Step) -> bool {
    if awaited(s) is None || !answers(awaited(s)->0, r) {
        s2 == s && step is Pending
    } else {
        match (s, r) {
            (_, Reply::Failed(f)) => fails_with(s2, step, awaited(s)->0, f),
            (Session::FindingPage { title, source_text }, Reply::Pages(v)) => if v@.len() == 0 {
                ends_not_found(s2, step, title)
            } else {
                &&& s2 is Updating
                &&& step matches Step::Send(Request::Update { id, document })
                &&& id == v@[0].id
                &&& document@ == render_view(update_draft_view(v@[0], source_text@))
            },
            (Session::FindingParent { space, title, source_text, parent }, Reply::Pages(v)) => if v@.len() == 0 {
                ends_not_found(s2, step, parent)
            } else {
                &&& s2 is Creating
                &&& step matches Step::Send(Request::Create { document })
                &&& document@ == render_view(create_draft_view(title@, space@, source_text@, seq![v@[0].id@]))
            },
            (Session::FindingView { title }, Reply::Pages(v)) => if v@.len() == 0 {
                ends_not_found(s2, step, title)
            } else {
                &&& s2 is Reading
                &&& step == Step::Send(Request::Fetch { id: v@[0].id })
            },
            (Session::Searching { title }, Reply::Pages(v)) => if v@.len() == 0 {
                ends_not_found(s2, step, title)
            } else {
                s2 is Finished && step == Step::Finish(Ok(Outcome::Found(v@[0])))
            },
            (Session::Reading, Reply::Content(c)) => {
                s2 is Finished && step == Step::Finish(Ok(Outcome::Content(c)))
            },
            (_, _) => {
                // a create or update was accepted
                s2 is Finished && step == Step::Finish(Ok(Outcome::Written))
            },
        }
    }
}

fn first_page(pages: Vec<ConfluencePage>) -> (p: ConfluencePage)
    requires
        pages@.len() > 0,
    ensures
        p == pages@[0],
{
    let mut pages = pages;
    pages.remove(0)
}

/// Whether a reply answers a request of the given kind.
pub fn answers_kind(kind: RequestKind, reply: &Reply) -> (b: bool)
    ensures
        b == answers(kind, *reply),
{
    match reply {
        Reply::Failed(_) => true,
        Reply::Pages(_) => kind == RequestKind::Search,
        Reply::Content(_) => kind == RequestKind::Fetch,
        Reply::Accepted => kind == RequestKind::Create || kind == RequestKind::Update,
    }
}

impl Session {
    /// The kind of request whose reply this session waits for, if any.
    pub fn awaited_kind(&self) -> (k: Option<RequestKind>)
        ensures
            k == awaited(*self),
    {
        match self {
            Session::FindingPage { .. } => Some(RequestKind::Search),
            Session::FindingParent { .. } => Some(RequestKind::Search),
            Session::FindingView { .. } => Some(RequestKind::Search),
            Session::Searching { .. } => Some(RequestKind::Search),
            Session::Creating => Some(RequestKind::Create),
            Session::Updating => Some(RequestKind::Update),
            Session::Reading => Some(RequestKind::Fetch),
            Session::Finished => None,
        }
    }

    /// Whether a reply answers the request this session waits for.
    pub fn accepts(&self, reply: &Reply) -> (b: bool)
        ensures
            b == (awaited(*self) is Some && answers(awaited(*self)->0, *reply)),
    {
        match self.awaited_kind() {
            Some(kind) => answers_kind(kind, reply),
            None => false,
        }
    }

    /// Takes the reply to the request in flight and decides what comes next.
    pub fn advance(self, reply: Reply) -> (res: (Session, Step))
        ensures
            advances(self, reply, res.0, res.1),
    {
        let kind = match self.awaited_kind() {
            Some(kind) => kind,
            None => {
                return (self, Step::Pending);
            },
        };
        if !answers_kind(kind, &reply) {
            return (self, Step::Pending);
        }
        match (self, reply) {
            (_, Reply::Failed(f)) => (Session::Finished, Step::Finish(Err(classify(kind, f)))),
            (Session::FindingPage { title, source_text }, Reply::Pages(v)) => {
                if v.len() == 0 {
                    (Session::Finished, Step::Finish(Err(SyncError::NotFound { title })))
                } else {
                    let page = first_page(v);
                    let id = page.id.clone();
                    let document = render(get_update_content(page, source_text));
                    (Session::Updating, Step::Send(Request::Update { id, document }))
                }
            },
            (Session::FindingParent { space, title, source_text, parent }, Reply::Pages(v)) => {
                if v.len() == 0 {
                    (Session::Finished, Step::Finish(Err(SyncError::NotFound { title: parent })))
                } else {
                    let page = first_page(v);
                    let draft = create_content(title, space, source_text, Some(page.id));
                    (Session::Creating, Step::Send(Request::Create { document: render(draft) }))
                }
            },
            (Session::FindingView { title }, Reply::Pages(v)) => {
                if v.len() == 0 {
                    (Session::Finished, Step::Finish(Err(SyncError::NotFound { title })))
                } else {
                    let page = first_page(v);
                    (Session::Reading, Step::Send(Request::Fetch { id: page.id }))
                }
            },
            (Session::Searching { title }, Reply::Pages(v)) => {
                if v.len() == 0 {
                    (Session::Finished, Step::Finish(Err(SyncError::NotFound { title })))
                } else {
                    (Session::Finished, Step::Finish(Ok(Outcome::Found(first_page(v)))))
                }
            },
            (Session::Reading, Reply::Content(c)) => {
                (Session::Finished, Step::Finish(Ok(Outcome::Content(c))))
            },
            (_, _) => (Session::Finished, Step::Finish(Ok(Outcome::Written))),
        }
    }
}

/// Starts updating the page `title` of `space` with `source_text`. The page
/// is looked up first; its version is read from what the search returns.
pub fn update(space: String, title: String, source_text: String) -> (res: (Session, Step))
    ensures
        res.0 == (Session::FindingPage { title, source_text }),
        res.1 == Step::Send(Request::Search { space, title }),
{
    let t = title.clone();
    (Session::FindingPage { title, source_text }, Step::Send(Request::Search { space, title: t }))
}

/// Starts creating the page `title` in `space` with `source_text`. With a
/// parent, the parent is looked up first; without one, the page is sent at once,
/// at version one and with no ancestors.
pub fn create(title: String, space: String, source_text: String, parent: Option<String>) -> (res: (Session, Step))
    ensures
        match parent {
            Some(p) => {
                &&& res.0 == (Session::FindingParent { space, title, source_text, parent: p })
                &&& res.1 == Step::Send(Request::Search { space, title: p })
            },
            None => {
                &&& res.0 is Creating
                &&& res.1 matches Step::Send(Request::Create { document })
                &&& document@ == render_view(create_draft_view(title@, space@, source_text@, seq![]))
            },
        },
{
    match parent {
        Some(p) => {
            let sp = space.clone();
            let pt = p.clone();
            (
                Session::FindingParent { space, title, source_text, parent: p },
                Step::Send(Request::Search { space: sp, title: pt }),
            )
        },
        None => {
            let draft = create_content(title, space, source_text, None);
            (Session::Creating, Step::Send(Request::Create { document: render(draft) }))
        },
    }
}

/// Starts looking up the page `title` of `space`, to fetch its rendered body.
pub fn get(title: String, space: String) -> (res: (Session, Step))
    ensures
        res.0 == (Session::FindingView { title }),
        res.1 == Step::Send(Request::Search { space, title }),
{
    let t = title.clone();
    (Session::FindingView { title }, Step::Send(Request::Search { space, title: t }))
}

/// Starts a search for the page `title` of `space`. When the service returns
/// several pages, the first in its order is taken.
pub fn search(space: String, title: String) -> (res: (Session, Step))
    ensures
        res.0 == (Session::Searching { title }),
        res.1 == Step::Send(Request::Search { space, title }),
{
    let t = title.clone();
    (Session::Searching { title }, Step::Send(Request::Search { space, title: t }))
}

/// An update is sent only in answer to the search for its page: it targets
/// the first page found, at that page's version plus one.
pub proof fn update_follows_search(s: Session, r: Reply, s2: Session, step: Step)
    requires
        advances(s, r, s2, step),
        step matches Step::Send(Request::Update { .. }),
    ensures
        s is FindingPage,
        ({
            &&& r matches Reply::Pages(v)
            &&& v@.len() > 0
            &&& step matches Step::Send(Request::Update { id, document })
            &&& id == v@[0].id
            &&& document@.version == v@[0].version.number + 1
        }),
{
}

/// No reply leads into a search: searches are sent only where an operation
/// starts, and a session waiting for one is left only by its answer.
pub proof fn searches_only_at_start(s: Session, r: Reply, s2: Session, step: Step)
    requires
        advances(s, r, s2, step),
    ensures
        !(step matches Step::Send(Request::Search { .. })),
        awaits_search(s2) ==> s2 == s && step is Pending,
{
}

/// A finished operation sends nothing more.
pub proof fn finished_is_final(r: Reply, s2: Session, step: Step)
    requires
        advances(Session::Finished, r, s2, step),
    ensures
        s2 is Finished,
        step is Pending,
{
}

/// When the search for the page to update finds nothing, the update fails
/// with `NotFound` and sends nothing further.
pub proof fn missing_page_stops_update(
    title: String,
    source_text: String,
    pages: Vec<ConfluencePage>,
    s2: Session,
    step: Step,
)
    requires
        advances(Session::FindingPage { title, source_text }, Reply::Pages(pages), s2, step),
        pages@.len() == 0,
    ensures
        s2 is Finished,
        step == Step::Finish(Err(SyncError::NotFound { title })),
{
}

/// When the search for the parent fails, the create fails with that
/// search's error, and no create is sent.
pub proof fn parent_failure_stops_create(
    space: String,
    title: String,
    source_text: String,
    parent: String,
    f: Failure,
    s2: Session,
    step: Step,
)
    requires
        advances(
            Session::FindingParent { space, title, source_text, parent },
            Reply::Failed(f),
            s2,
            step,
        ),
    ensures
        s2 is Finished,
        step == Step::Finish(Err(failure_error(RequestKind::Search, f))),
{
}

/// A create sent after the parent was found names exactly that parent as its
/// one ancestor, at version one.
pub proof fn create_links_parent(
    space: String,
    title: String,
    source_text: String,
    parent: String,
    r: Reply,
    s2: Session,
    step: Step,
)
    requires
        advances(Session::FindingParent { space, title, source_text, parent }, r, s2, step),
        step matches Step::Send(Request::Create { .. }),
    ensures
        ({
            &&& r matches Reply::Pages(v)
            &&& v@.len() > 0
            &&& step matches Step::Send(Request::Create { document })
            &&& document@.ancestors == seq![v@[0].id@]
            &&& document@.version == 1
        }),
{
}

/// The sessions of a run: `sessions[i + 1]` and `steps[i + 1]` are what the
/// reply `replies[i]` led to from `sessions[i]`.
pub open spec fn is_run(replies: Seq<Reply>, sessions: Seq<Session>, steps: Seq<Step>) -> bool {
    &&& sessions.len() == replies.len() + 1
    &&& steps.len() == replies.len() + 1
    &&& forall|i: int|
        0 <= i < replies.len() ==> advances(
            #[trigger] sessions[i],
            replies[i],
            sessions[i + 1],
            steps[i + 1],
        )
}

proof fn search_session_is_initial(
    replies: Seq<Reply>,
    sessions: Seq<Session>,
    steps: Seq<Step>,
    n: int,
)
    requires
        is_run(replies, sessions, steps),
        awaits_search(sessions[0]),
        0 <= n < sessions.len(),
    ensures
        awaits_search(sessions[n]) ==> sessions[n] == sessions[0],
    decreases n,
{
    if n > 0 {
        search_session_is_initial(replies, sessions, steps, n - 1);
        searches_only_at_start(sessions[n - 1], replies[n - 1], sessions[n], steps[n]);
    }
}

/// In every run of an update, each update request comes after the search for
/// the page was sent, and answers that search's results: it targets the first
/// page found, at that page's version plus one, with the source text.
pub proof fn update_run_follows_search(
    space: String,
    title: String,
    source_text: String,
    replies: Seq<Reply>,
    sessions: Seq<Session>,
    steps: Seq<Step>,
)
    requires
        is_run(replies, sessions, steps),
        sessions[0] == (Session::FindingPage { title, source_text }),
        steps[0] == Step::Send(Request::Search { space, title }),
    ensures
        forall|k: int|
            0 <= k < steps.len() && (#[trigger] steps[k] matches Step::Send(Request::Update { .. }))
                ==> {
                &&& k >= 1
                &&& sessions[k - 1] == sessions[0]
                &&& replies[k - 1] matches Reply::Pages(v)
                &&& v@.len() > 0
                &&& steps[k] matches Step::Send(Request::Update { id, document })
                &&& id == v@[0].id
                &&& document@ == render_view(update_draft_view(v@[0], source_text@))
                &&& document@.version == v@[0].version.number + 1
            },
{
    assert forall|k: int|
        0 <= k < steps.len() && (#[trigger] steps[k] matches Step::Send(Request::Update { .. }))
            implies {
            &&& k >= 1
            &&& sessions[k - 1] == sessions[0]
            &&& replies[k - 1] matches Reply::Pages(v)
            &&& v@.len() > 0
            &&& steps[k] matches Step::Send(Request::Update { id, document })
            &&& id == v@[0].id
            &&& document@ == render_view(update_draft_view(v@[0], source_text@))
            &&& document@.version == v@[0].version.number + 1
        } by {
        if k >= 1 {
            assert(advances(sessions[k - 1], replies[k - 1], sessions[k], steps[k]));
            update_follows_search(sessions[k - 1], replies[k - 1], sessions[k], steps[k]);
            search_session_is_initial(replies, sessions, steps, k - 1);
        }
    }
}

proof fn finish_leaves_finished(s: Session, r: Reply, s2: Session, step: Step)
    requires
        advances(s, r, s2, step),
        step is Finish,
    ensures
        s2 is Finished,
{
}

proof fn finished_from(
    replies: Seq<Reply>,
    sessions: Seq<Session>,
    steps: Seq<Step>,
    k: int,
    j: int,
)
    requires
        is_run(replies, sessions, steps),
        1 <= k <= j < sessions.len(),
        steps[k] is Finish,
    ensures
        sessions[j] is Finished,
        j > k ==> steps[j] is Pending,
    decreases j - k,
{
    if j == k {
        finish_leaves_finished(sessions[k - 1], replies[k - 1], sessions[k], steps[k]);
    } else {
        finished_from(replies, sessions, steps, k, j - 1);
        finished_is_final(replies[j - 1], sessions[j], steps[j]);
    }
}

/// Once an operation has finished, by success or by failure (a search that
/// found nothing, a failed parent search), no request is ever sent again.
pub proof fn nothing_follows_finish(
    replies: Seq<Reply>,
    sessions: Seq<Session>,
    steps: Seq<Step>,
    k: int,
)
    requires
        is_run(replies, sessions, steps),
        1 <= k < steps.len(),
        steps[k] is Finish,
    ensures
        forall|j: int| k < j < steps.len() ==> (#[trigger] steps[j]) is Pending,
{
    assert forall|j: int| k < j < steps.len() implies (#[trigger] steps[j]) is Pending by {
        finished_from(replies, sessions, steps, k, j);
    }
}

} // verus!
