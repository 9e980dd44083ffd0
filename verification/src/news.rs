//! The shared types of the news-agency plugin demonstration, and the four agencies'
//! article formats.

use vstd::prelude::*;
use crate::text::{decimal, usize_text, two};

verus! {

/// A news article produced by an agency plugin.
#[derive(Debug)]
pub struct NewsArticle {
    /// Headline.
    pub headline: String,
    /// Body.
    pub body: String,
    /// Dateline (city).
    pub dateline: String,
    /// Agency that published it.
    pub agency: String,
}

/// A menu item that a plugin declares for the front end's sidebar.
#[derive(Debug)]
pub struct PluginMenu {
    /// Key, unique within the plugin.
    pub key: String,
    /// Title shown.
    pub title: String,
    /// Icon (emoji or CSS class).
    pub icon: Option<String>,
    /// Route opened on click; `None` for a pure group.
    pub route: Option<String>,
    /// Sort weight: smaller comes first.
    pub order: i32,
    /// Sub-menus.
    pub children: Vec<PluginMenu>,
}

/// What a news plugin may ask of its host. The host implements it and hands it to the
/// agency's format function.
pub trait HostContext: Send + Sync {
    /// Host server name.
    fn server_name(&self) -> &str;
    /// Host version.
    fn server_version(&self) -> &str;
    /// Number of articles published so far.
    fn article_count(&self) -> usize;
    /// Writes a message to the host log.
    fn log_message(&self, msg: &str);
    /// Current server time, formatted.
    fn server_time(&self) -> String;
    /// Number of plugins loaded.
    fn plugin_count(&self) -> usize;
}

/// The host facts that every article body ends with:
/// `"\n\n---\n[Host: <name> v<version> | <time> | <n> plugins loaded, <m> articles]"`.
pub open spec fn host_footer(name: Seq<char>, version: Seq<char>, time: Seq<char>, plugins: usize, articles: usize) -> Seq<char> {
    "\n\n---\n[Host: "@ + name + " v"@ + version + " | "@ + time + " | "@ + decimal(plugins as int)
        + " plugins loaded, "@ + decimal(articles as int) + " articles]"@
}

fn footer(name: &str, version: &str, time: &str, plugins: usize, articles: usize) -> (r: String)
    ensures
        r@ == host_footer(name@, version@, time@, plugins, articles),
{
    let mut s = String::from_str("\n\n---\n[Host: ");
    s.append(name);
    s.append(" v");
    s.append(version);
    s.append(" | ");
    s.append(time);
    s.append(" | ");
    let p = usize_text(plugins);
    s.append(p.as_str());
    s.append(" plugins loaded, ");
    let a = usize_text(articles);
    s.append(a.as_str());
    s.append(" articles]");
    s
}

/// An agency's article: its headline and body decorations, its dateline, and the host
/// facts; the agency itself is left empty for `publish` to fill in.
fn article(
    head_prefix: &str, headline: &str, head_suffix: &str,
    body: &str, body_suffix: &str, dateline: &str,
    name: &str, version: &str, time: &str, plugins: usize, articles: usize,
) -> (r: NewsArticle)
    ensures
        r.headline@ == head_prefix@ + headline@ + head_suffix@,
        r.body@ == body@ + body_suffix@ + host_footer(name@, version@, time@, plugins, articles),
        r.dateline@ == dateline@,
        r.agency@ == Seq::<char>::empty(),
{
    let h = crate::text::three(head_prefix, headline, head_suffix);
    let mut b = two(body, body_suffix);
    let f = footer(name, version, time, plugins, articles);
    b.append(f.as_str());
    NewsArticle { headline: h, body: b, dateline: String::from_str(dateline), agency: String::new() }
}

/// The Reuters article for a headline and body, given the host facts:
/// `"[REUTERS] <headline>"`, dateline `LONDON`.
pub fn reuters_article(headline: &str, body: &str, name: &str, version: &str, time: &str, plugins: usize, articles: usize) -> (r: NewsArticle)
    ensures
        r.headline@ == "[REUTERS] "@ + headline@,
        r.body@ == body@ + " — Reporting by Reuters correspondents."@ + host_footer(name@, version@, time@, plugins, articles),
        r.dateline@ == "LONDON"@,
        r.agency@ == Seq::<char>::empty(),
{
    proof { reveal_strlit(""); }
    let r = article("[REUTERS] ", headline, "", body, " — Reporting by Reuters correspondents.", "LONDON", name, version, time, plugins, articles);
    proof { assert("[REUTERS] "@ + headline@ + ""@ =~= "[REUTERS] "@ + headline@); }
    r
}

/// The AFP article: `"<headline> — AFP"`, dateline `PARIS`.
pub fn afp_article(headline: &str, body: &str, name: &str, version: &str, time: &str, plugins: usize, articles: usize) -> (r: NewsArticle)
    ensures
        r.headline@ == headline@ + " — AFP"@,
        r.body@ == body@ + " [AFP correspondents worldwide]"@ + host_footer(name@, version@, time@, plugins, articles),
        r.dateline@ == "PARIS"@,
        r.agency@ == Seq::<char>::empty(),
{
    proof { reveal_strlit(""); }
    let r = article("", headline, " — AFP", body, " [AFP correspondents worldwide]", "PARIS", name, version, time, plugins, articles);
    proof { assert(""@ + headline@ + " — AFP"@ =~= headline@ + " — AFP"@); }
    r
}

/// The AP article: `"AP News: <headline>"`, dateline `NEW YORK`.
pub fn ap_article(headline: &str, body: &str, name: &str, version: &str, time: &str, plugins: usize, articles: usize) -> (r: NewsArticle)
    ensures
        r.headline@ == "AP News: "@ + headline@,
        r.body@ == body@ + " (The Associated Press)"@ + host_footer(name@, version@, time@, plugins, articles),
        r.dateline@ == "NEW YORK"@,
        r.agency@ == Seq::<char>::empty(),
{
    proof { reveal_strlit(""); }
    let r = article("AP News: ", headline, "", body, " (The Associated Press)", "NEW YORK", name, version, time, plugins, articles);
    proof { assert("AP News: "@ + headline@ + ""@ =~= "AP News: "@ + headline@); }
    r
}

/// The TASS article: `"<headline> — TASS"`, dateline `MOSCOW`.
pub fn tass_article(headline: &str, body: &str, name: &str, version: &str, time: &str, plugins: usize, articles: usize) -> (r: NewsArticle)
    ensures
        r.headline@ == headline@ + " — TASS"@,
        r.body@ == body@ + ", as reported by TASS."@ + host_footer(name@, version@, time@, plugins, articles),
        r.dateline@ == "MOSCOW"@,
        r.agency@ == Seq::<char>::empty(),
{
    proof { reveal_strlit(""); }
    let r = article("", headline, " — TASS", body, ", as reported by TASS.", "MOSCOW", name, version, time, plugins, articles);
    proof { assert(""@ + headline@ + " — TASS"@ =~= headline@ + " — TASS"@); }
    r
}

/// Reuters style: logs the headline through the host, then formats with the host's facts
/// (see [`reuters_article`]).
pub fn reuters_format(ctx: &dyn HostContext, headline: &str, body: &str) -> (r: NewsArticle)
    ensures
        r.headline@ == "[REUTERS] "@ + headline@,
        r.dateline@ == "LONDON"@,
        r.agency@ == Seq::<char>::empty(),
        exists|n: Seq<char>, v: Seq<char>, t: Seq<char>, p: usize, a: usize|
            r.body@ == body@ + " — Reporting by Reuters correspondents."@ + #[trigger] host_footer(n, v, t, p, a),
{
    let msg = two("Reuters formatting news: ", headline);
    ctx.log_message(msg.as_str());
    let time = ctx.server_time();
    reuters_article(headline, body, ctx.server_name(), ctx.server_version(), time.as_str(), ctx.plugin_count(), ctx.article_count())
}

/// AFP style: logs the headline through the host, then formats with the host's facts
/// (see [`afp_article`]).
pub fn afp_format(ctx: &dyn HostContext, headline: &str, body: &str) -> (r: NewsArticle)
    ensures
        r.headline@ == headline@ + " — AFP"@,
        r.dateline@ == "PARIS"@,
        r.agency@ == Seq::<char>::empty(),
        exists|n: Seq<char>, v: Seq<char>, t: Seq<char>, p: usize, a: usize|
            r.body@ == body@ + " [AFP correspondents worldwide]"@ + #[trigger] host_footer(n, v, t, p, a),
{
    let msg = two("AFP formatting news: ", headline);
    ctx.log_message(msg.as_str());
    let time = ctx.server_time();
    afp_article(headline, body, ctx.server_name(), ctx.server_version(), time.as_str(), ctx.plugin_count(), ctx.article_count())
}

/// AP style: logs the headline through the host, then formats with the host's facts
/// (see [`ap_article`]).
pub fn ap_format(ctx: &dyn HostContext, headline: &str, body: &str) -> (r: NewsArticle)
    ensures
        r.headline@ == "AP News: "@ + headline@,
        r.dateline@ == "NEW YORK"@,
        r.agency@ == Seq::<char>::empty(),
        exists|n: Seq<char>, v: Seq<char>, t: Seq<char>, p: usize, a: usize|
            r.body@ == body@ + " (The Associated Press)"@ + #[trigger] host_footer(n, v, t, p, a),
{
    let msg = two("AP formatting news: ", headline);
    ctx.log_message(msg.as_str());
    let time = ctx.server_time();
    ap_article(headline, body, ctx.server_name(), ctx.server_version(), time.as_str(), ctx.plugin_count(), ctx.article_count())
}

/// TASS style: logs the headline through the host, then formats with the host's facts
/// (see [`tass_article`]).
pub fn tass_format(ctx: &dyn HostContext, headline: &str, body: &str) -> (r: NewsArticle)
    ensures
        r.headline@ == headline@ + " — TASS"@,
        r.dateline@ == "MOSCOW"@,
        r.agency@ == Seq::<char>::empty(),
        exists|n: Seq<char>, v: Seq<char>, t: Seq<char>, p: usize, a: usize|
            r.body@ == body@ + ", as reported by TASS."@ + #[trigger] host_footer(n, v, t, p, a),
{
    let msg = two("TASS formatting news: ", headline);
    ctx.log_message(msg.as_str());
    let time = ctx.server_time();
    tass_article(headline, body, ctx.server_name(), ctx.server_version(), time.as_str(), ctx.plugin_count(), ctx.article_count())
}

} // verus!
