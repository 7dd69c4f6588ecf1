//! Resolving message links into summaries of the linked messages.
//!
//! Each link of a message is resolved on its own, in steps: `start_link`
//! decides whether the link is in scope and which channel to fetch,
//! `after_channel` checks that the author of the linking message may view that
//! channel and names the message to fetch, and `after_message` renders it. The
//! fetches themselves are made by the caller, which hands the answers back.

use vstd::prelude::*;
use crate::decimal::{decimal, lemma_decimal_parses_back, parse_id, parsed_id, to_decimal};
use crate::links::{extract_links, link_at, link_views, links_before, links_in, Link};
use crate::model::{Attachment, ChannelInfo, ChannelKind, Message};
use crate::permissions::{can_view, can_view_spec, has_channel, view_in, Topology};

verus! {

#[derive(Clone, Copy, Debug, PartialEq, Eq, Structural)]
pub enum SkipReason {
    /// The link points into another server.
    OutOfScope,
    /// The channel does not exist, or is not a server channel.
    ChannelNotFound,
    /// The author of the linking message may not view the channel.
    NoViewPermission,
    MessageNotFound,
}

#[derive(Clone, Copy, Debug, PartialEq, Eq, Structural)]
pub enum ResolveError {
    /// The server, the member's permissions or a thread's parent channel is
    /// missing from the cache.
    NotCached,
    /// An id of the link is not a valid identifier.
    MalformedId,
}

/// One titled field of a summary.
#[derive(Clone, Debug, PartialEq, Eq)]
pub struct Field {
    pub name: String,
    pub value: String,
}

/// What is shown for a linked message.
#[derive(Clone, Debug, PartialEq, Eq)]
pub struct Summary {
    pub author_name: String,
    pub author_icon: String,
    /// Names the channel the message was posted in.
    pub footer: String,
    pub timestamp: String,
    /// The message's text and a link back to it.
    pub description: String,
    /// One field per attachment of the linked message.
    pub fields: Vec<Field>,
    /// An image shown inline.
    pub image: Option<String>,
}

pub ghost struct SummaryView {
    pub author_name: Seq<char>,
    pub author_icon: Seq<char>,
    pub footer: Seq<char>,
    pub timestamp: Seq<char>,
    pub description: Seq<char>,
    pub fields: Seq<(Seq<char>, Seq<char>)>,
    pub image: Option<Seq<char>>,
}

pub open spec fn opt_view(o: Option<String>) -> Option<Seq<char>> {
    match o {
        Some(s) => Some(s@),
        None => None,
    }
}

impl View for Summary {
    type V = SummaryView;

    open spec fn view(&self) -> SummaryView {
        SummaryView {
            author_name: self.author_name@,
            author_icon: self.author_icon@,
            footer: self.footer@,
            timestamp: self.timestamp@,
            description: self.description@,
            fields: self.fields@.map_values(|f: Field| (f.name@, f.value@)),
            image: opt_view(self.image),
        }
    }
}

/// How resolving one link ended.
#[derive(Clone, Debug, PartialEq, Eq)]
pub enum Outcome {
    Rendered(Summary),
    Skipped(SkipReason),
    Failed(ResolveError),
}

pub ghost enum OutcomeView {
    Rendered(SummaryView),
    Skipped(SkipReason),
    Failed(ResolveError),
}

impl View for Outcome {
    type V = OutcomeView;

    open spec fn view(&self) -> OutcomeView {
        match self {
            Outcome::Rendered(s) => OutcomeView::Rendered(s@),
            Outcome::Skipped(r) => OutcomeView::Skipped(*r),
            Outcome::Failed(e) => OutcomeView::Failed(*e),
        }
    }
}

/// The next step for one link.
#[derive(Clone, Debug, PartialEq, Eq)]
pub enum LinkStep {
    /// Fetch the channel with this id, then call `after_channel`.
    FetchChannel(u64),
    /// Fetch the message with this id from the channel, then call
    /// `after_message`.
    FetchMessage(u64),
    Finished(Outcome),
}

pub ghost enum StepView {
    FetchChannel(u64),
    FetchMessage(u64),
    Finished(OutcomeView),
}

impl View for LinkStep {
    type V = StepView;

    open spec fn view(&self) -> StepView {
        match self {
            LinkStep::FetchChannel(c) => StepView::FetchChannel(*c),
            LinkStep::FetchMessage(m) => StepView::FetchMessage(*m),
            LinkStep::Finished(o) => StepView::Finished(o@),
        }
    }
}

/// A link is in scope when its server id is the decimal text of the
/// linking message's server; then its channel is fetched.
pub open spec fn start_spec(l: (Seq<char>, Seq<char>, Seq<char>), server: u64) -> StepView {
    if l.0 != decimal(server as nat) {
        StepView::Finished(OutcomeView::Skipped(SkipReason::OutOfScope))
    } else {
        match parsed_id(l.1) {
            Some(c) => StepView::FetchChannel(c),
            None => StepView::Finished(OutcomeView::Failed(ResolveError::MalformedId)),
        }
    }
}

/// The cached topology is that of server `server`.
pub open spec fn topology_for(top: Option<Topology>, server: u64) -> bool {
    top is Some && top->Some_0.server_id == server
}

/// After the channel fetch: the permission check against the cached
/// topology of server `server` (a missing or foreign topology fails this link
/// alone), then the message fetch.
pub open spec fn after_channel_spec(
    l: (Seq<char>, Seq<char>, Seq<char>),
    requester: u64,
    server: u64,
    top: Option<Topology>,
    channel: Option<ChannelInfo>,
) -> StepView {
    match channel {
        None => StepView::Finished(OutcomeView::Skipped(SkipReason::ChannelNotFound)),
        Some(c) => if !topology_for(top, server) {
            StepView::Finished(OutcomeView::Failed(ResolveError::NotCached))
        } else {
            match can_view_spec(top->Some_0, requester, c) {
            Err(_) => StepView::Finished(OutcomeView::Failed(ResolveError::NotCached)),
            Ok(false) => StepView::Finished(OutcomeView::Skipped(SkipReason::NoViewPermission)),
            Ok(true) => match parsed_id(l.2) {
                Some(m) => StepView::FetchMessage(m),
                None => StepView::Finished(OutcomeView::Failed(ResolveError::MalformedId)),
            },
            }
        },
    }
}

/// The links to resolve in `msg`: none in a direct message, else every link
/// of its text.
pub open spec fn resolution_targets(msg: Message) -> Seq<(Seq<char>, Seq<char>, Seq<char>)> {
    if msg.guild_id is None {
        seq![]
    } else {
        links_in(msg.content@)
    }
}

pub open spec fn image_prefix() -> Seq<char> {
    seq!['i', 'm', 'a', 'g', 'e', '/']
}

/// The attachment's content type begins with `image/`.
pub open spec fn is_image(a: Attachment) -> bool {
    match a.content_type {
        Some(ct) => ct@.len() >= 6 && ct@.take(6) == image_prefix(),
        None => false,
    }
}

/// The address of the first image among `atts`.
pub open spec fn first_image(atts: Seq<Attachment>) -> Option<Seq<char>>
    decreases atts.len(),
{
    if atts.len() == 0 {
        None
    } else if is_image(atts[0]) {
        Some(atts[0].url@)
    } else {
        first_image(atts.drop_first())
    }
}

/// The platform's address of a message.
pub open spec fn link_to(m: Message) -> Seq<char> {
    "https://discord.com/channels/"@ + match m.guild_id {
        Some(g) => decimal(g as nat),
        None => "@me"@,
    } + "/"@ + decimal(m.channel_id as nat) + "/"@ + decimal(m.id as nat)
}

pub open spec fn attachment_field(a: Attachment) -> (Seq<char>, Seq<char>) {
    ("Attachments"@, "["@ + a.filename@ + "]("@ + a.url@ + ")"@)
}

/// The summary of `original`, found in `channel` through a link in
/// `trigger`. The inline image, shown only where `original` has attachments,
/// is taken from `trigger`.
pub open spec fn render_spec(original: Message, channel: ChannelInfo, trigger: Message) -> SummaryView {
    SummaryView {
        author_name: original.author.tag@,
        author_icon: original.author.avatar_url@,
        footer: "#"@ + channel.name@,
        timestamp: original.timestamp@,
        description: original.content@ + "\n\n[Jump to original message]("@ + link_to(original)
            + ")"@,
        fields: original.attachments@.map_values(|a: Attachment| attachment_field(a)),
        image: if original.attachments@.len() > 0 {
            first_image(trigger.attachments@)
        } else {
            None
        },
    }
}

pub open spec fn after_message_spec(channel: ChannelInfo, fetched: Option<Message>, trigger: Message) -> OutcomeView {
    match fetched {
        None => OutcomeView::Skipped(SkipReason::MessageNotFound),
        Some(m) => OutcomeView::Rendered(render_spec(m, channel, trigger)),
    }
}

/// The summaries among `os`, in order.
pub open spec fn rendered_of(os: Seq<OutcomeView>) -> Seq<SummaryView>
    decreases os.len(),
{
    if os.len() == 0 {
        seq![]
    } else {
        match os[0] {
            OutcomeView::Rendered(s) => seq![s] + rendered_of(os.drop_first()),
            _ => rendered_of(os.drop_first()),
        }
    }
}

pub open spec fn outcome_views(os: Seq<Outcome>) -> Seq<OutcomeView> {
    os.map_values(|o: Outcome| o@)
}

pub open spec fn summary_views(ss: Seq<Summary>) -> Seq<SummaryView> {
    ss.map_values(|s: Summary| s@)
}

/// The links to resolve in `msg`: none in a direct message, else every link
/// of its text, in order.
pub fn resolution_links(msg: &Message) -> (r: Vec<Link>)
    ensures
        link_views(r@) == resolution_targets(*msg),
{
    match msg.guild_id {
        None => {
            let r: Vec<Link> = Vec::new();
            assert(link_views(r@) =~= seq![]);
            r
        },
        Some(_) => extract_links(msg.content.as_str()),
    }
}

/// The first step for `link`, found in a message of server `server`.
pub fn start_link(link: &Link, server: u64) -> (r: LinkStep)
    ensures
        r@ == start_spec(link@, server),
{
    let own = to_decimal(server);
    if link.server != own {
        return LinkStep::Finished(Outcome::Skipped(SkipReason::OutOfScope));
    }
    match parse_id(link.channel.as_str()) {
        Some(c) => LinkStep::FetchChannel(c),
        None => LinkStep::Finished(Outcome::Failed(ResolveError::MalformedId)),
    }
}

/// The step after the channel was fetched (`None`: not found, or not a
/// server channel); `requester` is the author of the linking message, posted
/// in server `server`, and `topology` what the cache holds of that server.
pub fn after_channel(
    link: &Link,
    requester: u64,
    server: u64,
    topology: Option<&Topology>,
    channel: Option<&ChannelInfo>,
) -> (r: LinkStep)
    ensures
        r@ == after_channel_spec(
            link@,
            requester,
            server,
            match topology {
                Some(t) => Some(*t),
                None => None,
            },
            match channel {
                Some(c) => Some(*c),
                None => None,
            },
        ),
{
    let c = match channel {
        None => return LinkStep::Finished(Outcome::Skipped(SkipReason::ChannelNotFound)),
        Some(c) => c,
    };
    let top = match topology {
        Some(t) if t.server_id == server => t,
        _ => return LinkStep::Finished(Outcome::Failed(ResolveError::NotCached)),
    };
    match can_view(top, requester, c) {
        Err(_) => LinkStep::Finished(Outcome::Failed(ResolveError::NotCached)),
        Ok(false) => LinkStep::Finished(Outcome::Skipped(SkipReason::NoViewPermission)),
        Ok(true) => match parse_id(link.message.as_str()) {
            Some(m) => LinkStep::FetchMessage(m),
            None => LinkStep::Finished(Outcome::Failed(ResolveError::MalformedId)),
        },
    }
}

fn is_image_exec(a: &Attachment) -> (r: bool)
    ensures
        r == is_image(*a),
{
    match &a.content_type {
        None => false,
        Some(ct) => {
            let s = ct.as_str();
            if s.unicode_len() < 6 {
                return false;
            }
            let r = s.get_char(0) == 'i' && s.get_char(1) == 'm' && s.get_char(2) == 'a'
                && s.get_char(3) == 'g' && s.get_char(4) == 'e' && s.get_char(5) == '/';
            proof {
                let t = ct@.take(6);
                if r {
                    assert(t =~= image_prefix());
                } else {
                    if t == image_prefix() {
                        assert(t[0] == 'i' && t[1] == 'm' && t[2] == 'a');
                        assert(t[3] == 'g' && t[4] == 'e' && t[5] == '/');
                    }
                }
            }
            r
        },
    }
}

/// The address of the first image attached to `msg`.
pub fn find_first_image(msg: &Message) -> (r: Option<String>)
    ensures
        opt_view(r) == first_image(msg.attachments@),
{
    let atts = &msg.attachments;
    let n = atts.len();
    let mut i: usize = 0;
    assert(atts@.subrange(0, n as int) =~= atts@);
    while i < n
        invariant
            atts == &msg.attachments,
            n == atts@.len(),
            i <= n,
            first_image(atts@) == first_image(atts@.subrange(i as int, n as int)),
        decreases n - i,
    {
        assert(atts@.subrange(i as int, n as int)[0] == atts@[i as int]);
        if is_image_exec(&atts[i]) {
            let u = String::from_str(atts[i].url.as_str());
            assert(first_image(atts@.subrange(i as int, n as int)) == Some(atts@[i as int].url@));
            return Some(u);
        }
        assert(atts@.subrange(i as int, n as int).drop_first() =~= atts@.subrange(i as int + 1, n as int));
        i = i + 1;
    }
    assert(atts@.subrange(n as int, n as int).len() == 0);
    None
}

/// The platform's address of `m`, as the platform client writes it.
pub fn message_link(m: &Message) -> (r: String)
    ensures
        r@ == link_to(*m),
{
    let mut s = String::from_str("https://discord.com/channels/");
    match m.guild_id {
        Some(g) => {
            let d = to_decimal(g);
            s.append(d.as_str());
        },
        None => s.append("@me"),
    }
    s.append("/");
    let c = to_decimal(m.channel_id);
    s.append(c.as_str());
    s.append("/");
    let i = to_decimal(m.id);
    s.append(i.as_str());
    s
}

fn field_of(a: &Attachment) -> (r: Field)
    ensures
        (r.name@, r.value@) == attachment_field(*a),
{
    let mut v = String::from_str("[");
    v.append(a.filename.as_str());
    v.append("](");
    v.append(a.url.as_str());
    v.append(")");
    Field { name: String::from_str("Attachments"), value: v }
}

/// The summary of `original`, fetched from `channel` through a link in
/// `trigger`.
pub fn render(original: &Message, channel: &ChannelInfo, trigger: &Message) -> (r: Summary)
    ensures
        r@ == render_spec(*original, *channel, *trigger),
{
    let atts = &original.attachments;
    let n = atts.len();
    let mut fields: Vec<Field> = Vec::new();
    let mut i: usize = 0;
    while i < n
        invariant
            n == atts@.len(),
            i <= n,
            fields@.len() == i,
            forall|j: int| 0 <= j < i ==> (#[trigger] fields@[j].name@, fields@[j].value@) == attachment_field(atts@[j]),
        decreases n - i,
    {
        let f = field_of(&atts[i]);
        fields.push(f);
        i = i + 1;
    }
    assert(fields@.map_values(|f: Field| (f.name@, f.value@)) =~= atts@.map_values(
        |a: Attachment| attachment_field(a),
    ));
    let image = if n > 0 {
        find_first_image(trigger)
    } else {
        None
    };
    let mut footer = String::from_str("#");
    footer.append(channel.name.as_str());
    let mut description = original.content.clone();
    description.append("\n\n[Jump to original message](");
    let link = message_link(original);
    description.append(link.as_str());
    description.append(")");
    Summary {
        author_name: original.author.tag.clone(),
        author_icon: original.author.avatar_url.clone(),
        footer,
        timestamp: original.timestamp.clone(),
        description,
        fields,
        image,
    }
}

/// How the link ends once its message was fetched from `channel` (`None`:
/// not found).
pub fn after_message(channel: &ChannelInfo, fetched: Option<&Message>, trigger: &Message) -> (r: Outcome)
    ensures
        r@ == after_message_spec(
            *channel,
            match fetched {
                Some(m) => Some(*m),
                None => None,
            },
            *trigger,
        ),
{
    match fetched {
        None => Outcome::Skipped(SkipReason::MessageNotFound),
        Some(m) => Outcome::Rendered(render(m, channel, trigger)),
    }
}

/// The summaries among the outcomes of a message's links, in the order of
/// the links.
pub fn summaries(outcomes: Vec<Outcome>) -> (r: Vec<Summary>)
    ensures
        summary_views(r@) == rendered_of(outcome_views(outcomes@)),
{
    let mut rest = outcomes;
    let mut r: Vec<Summary> = Vec::new();
    while rest.len() > 0
        invariant
            rendered_of(outcome_views(outcomes@)) == summary_views(r@) + rendered_of(
                outcome_views(rest@),
            ),
        decreases rest@.len(),
    {
        let ghost before = rest@;
        let o = rest.remove(0);
        assert(outcome_views(before).drop_first() =~= outcome_views(rest@));
        match o {
            Outcome::Rendered(s) => {
                let ghost pre = summary_views(r@);
                r.push(s);
                assert(summary_views(r@) =~= pre + seq![s@]);
            },
            _ => {},
        }
    }
    assert(rendered_of(outcome_views(rest@)) =~= seq![]);
    r
}


proof fn lemma_no_link_before(t: Seq<char>, n: int)
    requires
        0 <= n <= t.len(),
        forall|i: int| 0 <= i < t.len() ==> #[trigger] link_at(t, i) is None,
    ensures
        links_before(t, n).len() == 0,
    decreases n,
{
    if n > 0 {
        lemma_no_link_before(t, n - 1);
        assert(link_at(t, n - 1) is None);
    }
}

/// A message in whose text no link begins has no links to resolve, so its
/// outcomes (one per link) hold no summary, whether or not its server is
/// cached.
pub proof fn lemma_no_links_nothing_resolved(msg: Message)
    requires
        forall|i: int| 0 <= i < msg.content@.len() ==> #[trigger] link_at(msg.content@, i) is None,
    ensures
        resolution_targets(msg).len() == 0,
        forall|os: Seq<OutcomeView>| os.len() == resolution_targets(msg).len() ==> rendered_of(os).len() == 0,
{
    lemma_no_link_before(msg.content@, msg.content@.len() as int);
}

/// A link whose server id is not that of the linking message's server ends
/// at its first step as out of scope: nothing is fetched for it.
pub proof fn lemma_other_server_not_fetched(l: (Seq<char>, Seq<char>, Seq<char>), server: u64)
    requires
        server > 0,
        parsed_id(l.0) != Some(server),
    ensures
        start_spec(l, server) == StepView::Finished(OutcomeView::Skipped(SkipReason::OutOfScope)),
{
    lemma_decimal_parses_back(server as nat);
}

/// A link into a channel that the author of the linking message may not
/// view ends as a denial, before its message is fetched.
pub proof fn lemma_denied_link_skipped(
    l: (Seq<char>, Seq<char>, Seq<char>),
    requester: u64,
    server: u64,
    top: Topology,
    channel: ChannelInfo,
)
    requires
        top.server_id == server,
        can_view_spec(top, requester, channel) == Ok::<bool, crate::permissions::PermissionError>(false),
    ensures
        after_channel_spec(l, requester, server, Some(top), Some(channel)) == StepView::Finished(
            OutcomeView::Skipped(SkipReason::NoViewPermission),
        ),
{
}

/// The summaries of consecutive groups of links are those of each group, in
/// order.
pub proof fn lemma_rendered_of_concat(a: Seq<OutcomeView>, b: Seq<OutcomeView>)
    ensures
        rendered_of(a + b) == rendered_of(a) + rendered_of(b),
    decreases a.len(),
{
    if a.len() == 0 {
        assert(a + b =~= b);
        assert(rendered_of(a) + rendered_of(b) =~= rendered_of(b));
    } else {
        assert((a + b).drop_first() =~= a.drop_first() + b);
        lemma_rendered_of_concat(a.drop_first(), b);
        assert((a + b)[0] == a[0]);
        match a[0] {
            OutcomeView::Rendered(s) => {
                assert(seq![s] + (rendered_of(a.drop_first()) + rendered_of(b)) =~= (seq![s]
                    + rendered_of(a.drop_first())) + rendered_of(b));
            },
            _ => {},
        }
    }
}

/// A link that was skipped or failed takes nothing from the summaries of the
/// links before and after it.
pub proof fn lemma_unrendered_link_isolated(a: Seq<OutcomeView>, o: OutcomeView, b: Seq<OutcomeView>)
    requires
        !(o is Rendered),
    ensures
        rendered_of(a + seq![o] + b) == rendered_of(a) + rendered_of(b),
{
    lemma_rendered_of_concat(a + seq![o], b);
    lemma_rendered_of_concat(a, seq![o]);
    assert(seq![o].drop_first() =~= Seq::<OutcomeView>::empty());
    assert(rendered_of(seq![o]) == rendered_of(Seq::<OutcomeView>::empty()));
    assert(rendered_of(a) + rendered_of(seq![o]) =~= rendered_of(a));
}

/// A link into a public thread whose parent is cached and viewable goes on
/// to fetch its message.
pub proof fn lemma_thread_link_resolves(
    l: (Seq<char>, Seq<char>, Seq<char>),
    requester: u64,
    server: u64,
    top: Topology,
    thread: ChannelInfo,
    parent: u64,
)
    requires
        top.server_id == server,
        thread.kind == ChannelKind::PublicThread,
        thread.parent_id == Some(parent),
        has_channel(top, parent),
        view_in(top, requester, parent) == Ok::<bool, crate::permissions::PermissionError>(true),
        parsed_id(l.2) is Some,
    ensures
        after_channel_spec(l, requester, server, Some(top), Some(thread)) == StepView::FetchMessage(
            parsed_id(l.2)->Some_0,
        ),
{
}

/// A link into a public thread whose parent is unknown or not cached fails
/// as not cached, which is not a denial.
pub proof fn lemma_thread_link_parent_missing(
    l: (Seq<char>, Seq<char>, Seq<char>),
    requester: u64,
    server: u64,
    top: Topology,
    thread: ChannelInfo,
)
    requires
        top.server_id == server,
        thread.kind == ChannelKind::PublicThread,
        match thread.parent_id {
            Some(p) => !has_channel(top, p),
            None => true,
        },
    ensures
        after_channel_spec(l, requester, server, Some(top), Some(thread)) == StepView::Finished(
            OutcomeView::Failed(ResolveError::NotCached),
        ),
        after_channel_spec(l, requester, server, Some(top), Some(thread)) != StepView::Finished(
            OutcomeView::Skipped(SkipReason::NoViewPermission),
        ),
{
}

} // verus!
