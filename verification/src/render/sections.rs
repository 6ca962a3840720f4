//! One renderer per section of the README. Each has a spec function that
//! says what text the section is, and an executable function that writes it.

use crate::config::profile::{
    About, Article, Blog, CollapsibleSection, Dynamic, Extras, Header, HeaderStyle, Meta,
    ProjectDisplay, Projects, Skills, Social, Sponsors, Stats,
};
use crate::services::urls;
use crate::text::{
    empty_str, decimal, decimal_string, first_index_of, join, join_prefixed, join_strings, lowercase,
    opt_str, opt_text, opt_texts, prefixed, push_text, replace_char, replace_char_in,
    split_once_char, str_texts, texts, titled, titled_block,
};
use vstd::prelude::*;
use vstd::string::*;

verus! {

// ───────────────────────────── Header ─────────────────────────────

/// The name to greet with: the display name, or the username without one.
pub open spec fn display_name(meta: Meta) -> Seq<char> {
    opt_text(meta.name, meta.username@)
}

/// The typing animation, centred; nothing without lines to type.
pub open spec fn spec_render_header_typing_svg(header: Header) -> Seq<char> {
    if opt_texts(header.typing_lines).len() == 0 {
        Seq::empty()
    } else {
        "<p align=\"center\">\n  <a href=\"https://readme-typing-svg.demolab.com/\">\n    <img src=\""@
            + urls::spec_typing_svg_url(
            opt_texts(header.typing_lines),
            opt_text(header.typing_font, "Fira Code"@),
            opt_text(header.typing_color, "f75c7e"@),
            true,
        ) + "\" />\n  </a>\n</p>"@
    }
}

/// A greeting as a heading, with the tagline below it when there is one.
pub open spec fn spec_render_header_text(header: Header, meta: Meta) -> Seq<char> {
    let greeting = "## Hey! I'm "@ + display_name(meta);
    match header.tagline {
        Some(tagline) => greeting + ("\n\n"@ + tagline@),
        None => greeting,
    }
}

/// The banner image, centred; nothing without a banner address.
pub open spec fn spec_render_header_banner(header: Header) -> Seq<char> {
    match header.banner_url {
        Some(url) => "<p align=\"center\">\n  <img src=\""@ + url@ + "\" />\n</p>"@,
        None => Seq::empty(),
    }
}

/// A top-level greeting with a waving hand.
pub open spec fn spec_render_header_wave(meta: Meta) -> Seq<char> {
    "# Hi there, I'm "@ + display_name(meta) + " \u{1f44b}"@
}

/// The header in the style it asks for; the text greeting when it asks for
/// none.
pub open spec fn spec_render_header(header: Header, meta: Meta) -> Seq<char> {
    match header.style {
        None => spec_render_header_text(header, meta),
        Some(HeaderStyle::TypingSvg) => spec_render_header_typing_svg(header),
        Some(HeaderStyle::Text) => spec_render_header_text(header, meta),
        Some(HeaderStyle::Banner) => spec_render_header_banner(header),
        Some(HeaderStyle::Wave) => spec_render_header_wave(meta),
    }
}

/// Render the header section.
pub fn render_header(header: &Header, meta: &Meta) -> (res: String)
    ensures
        res@ == spec_render_header(*header, *meta),
{
    match &header.style {
        None => render_header_text(header, meta),
        Some(HeaderStyle::TypingSvg) => render_header_typing_svg(header),
        Some(HeaderStyle::Text) => render_header_text(header, meta),
        Some(HeaderStyle::Banner) => render_header_banner(header),
        Some(HeaderStyle::Wave) => render_header_wave(meta),
    }
}

/// Borrows every string of a list as a slice.
fn as_strs(list: &Vec<String>) -> (res: Vec<&str>)
    ensures
        str_texts(res@) == texts(list@),
{
    let mut out: Vec<&str> = Vec::new();
    let mut i: usize = 0;
    while i < list.len()
        invariant
            i <= list@.len(),
            str_texts(out@) == texts(list@).take(i as int),
        decreases list@.len() - i,
    {
        out.push(list[i].as_str());
        i += 1;
        assert(texts(list@).take(i as int) =~= texts(list@).take(i - 1).push(list@[i - 1]@));
    }
    out
}

/// Render the header as a typing animation.
pub fn render_header_typing_svg(header: &Header) -> (res: String)
    ensures
        res@ == spec_render_header_typing_svg(*header),
{
    let lines: &Vec<String> = match &header.typing_lines {
        Some(l) => l,
        None => {
            return String::new();
        },
    };
    if lines.len() == 0 {
        return String::new();
    }
    let font = opt_str(&header.typing_font, "Fira Code");
    let color = opt_str(&header.typing_color, "f75c7e");
    let line_strs = as_strs(lines);
    let url = urls::typing_svg_url(line_strs.as_slice(), font, color, true);
    let mut out = String::from_str(
        "<p align=\"center\">\n  <a href=\"https://readme-typing-svg.demolab.com/\">\n    <img src=\"",
    );
    out.append(url.as_str());
    out.append("\" />\n  </a>\n</p>");
    out
}

/// Render the header as a text greeting.
pub fn render_header_text(header: &Header, meta: &Meta) -> (res: String)
    ensures
        res@ == spec_render_header_text(*header, *meta),
{
    let name = opt_str(&meta.name, meta.username.as_str());
    let mut out = String::from_str("## Hey! I'm ");
    out.append(name);
    if let Some(tagline) = &header.tagline {
        let mut rest = String::from_str("\n\n");
        rest.append(tagline.as_str());
        out.append(rest.as_str());
    }
    out
}

/// Render the header as a banner image.
pub fn render_header_banner(header: &Header) -> (res: String)
    ensures
        res@ == spec_render_header_banner(*header),
{
    match &header.banner_url {
        Some(url) => {
            let mut out = String::from_str("<p align=\"center\">\n  <img src=\"");
            out.append(url.as_str());
            out.append("\" />\n</p>");
            out
        },
        None => String::new(),
    }
}

/// Render the header as a waving greeting.
pub fn render_header_wave(meta: &Meta) -> (res: String)
    ensures
        res@ == spec_render_header_wave(*meta),
{
    let name = opt_str(&meta.name, meta.username.as_str());
    let mut out = String::from_str("# Hi there, I'm ");
    out.append(name);
    out.append(" \u{1f44b}");
    out
}

// ───────────────────────────── About ─────────────────────────────

/// `items` with one line more when `value` is present: the value between
/// `before` and `after`.
pub open spec fn with_line(
    items: Seq<Seq<char>>,
    before: Seq<char>,
    value: Option<String>,
    after: Seq<char>,
) -> Seq<Seq<char>> {
    match value {
        Some(v) => items.push(before + v@ + after),
        None => items,
    }
}

/// The lines of the About section, in their fixed order: role (with the
/// company when there is one), current work, learning, topics, fun fact,
/// pronouns, location. The timezone is not shown.
pub open spec fn about_lines(about: About) -> Seq<Seq<char>> {
    let items = Seq::<Seq<char>>::empty();
    let items = with_line(
        items,
        "\u{1f4bc} "@,
        about.role,
        match about.company {
            Some(c) => " at **"@ + c@ + "**"@,
            None => Seq::empty(),
        },
    );
    let items = with_line(items, "\u{1f52d} Currently working on **"@, about.current_work, "**"@);
    let items = with_line(items, "\u{1f331} Learning **"@, about.learning, "**"@);
    let items = with_line(items, "\u{1f4ac} Ask me about **"@, about.reach_me, "**"@);
    let items = with_line(items, "\u{26a1} Fun fact: "@, about.fun_fact, Seq::empty());
    let items = with_line(items, "\u{1f600} Pronouns: "@, about.pronouns, Seq::empty());
    let items = with_line(items, "\u{1f4cd} "@, about.location, Seq::empty());
    items
}

/// The About section: its lines as a bullet list.
pub open spec fn spec_render_about(about: About) -> Seq<char> {
    join(prefixed(about_lines(about), "- "@), "\n"@)
}

/// Appends the line for an optional value.
fn push_line(items: &mut Vec<String>, before: &str, value: &Option<String>, after: &str)
    ensures
        texts(final(items)@) == with_line(texts(old(items)@), before@, *value, after@),
{
    if let Some(v) = value {
        let mut line = String::from_str(before);
        line.append(v.as_str());
        line.append(after);
        push_text(items, line);
    }
}

/// Render the About Me section.
pub fn render_about(about: &About) -> (res: String)
    ensures
        res@ == spec_render_about(*about),
{
    let mut items: Vec<String> = Vec::new();
    assert(texts(items@) =~= Seq::<Seq<char>>::empty());
    let company_part = match &about.company {
        Some(c) => {
            let mut part = String::from_str(" at **");
            part.append(c.as_str());
            part.append("**");
            part
        },
        None => String::new(),
    };
    push_line(&mut items, "\u{1f4bc} ", &about.role, company_part.as_str());
    push_line(&mut items, "\u{1f52d} Currently working on **", &about.current_work, "**");
    push_line(&mut items, "\u{1f331} Learning **", &about.learning, "**");
    push_line(&mut items, "\u{1f4ac} Ask me about **", &about.reach_me, "**");
    push_line(&mut items, "\u{26a1} Fun fact: ", &about.fun_fact, empty_str());
    push_line(&mut items, "\u{1f600} Pronouns: ", &about.pronouns, empty_str());
    push_line(&mut items, "\u{1f4cd} ", &about.location, empty_str());
    join_prefixed(items.as_slice(), "- ", "\n")
}

// ───────────────────────────── Shared pieces ─────────────────────────────

/// `items` with `item` appended when `present` holds.
pub open spec fn with_item(items: Seq<Seq<char>>, present: bool, item: Seq<char>) -> Seq<
    Seq<char>,
> {
    if present {
        items.push(item)
    } else {
        items
    }
}

/// Whether an optional switch is set and on.
pub open spec fn is_on(switch: Option<bool>) -> bool {
    switch == Some(true)
}

/// Whether an optional switch is set and on.
fn switch_on(switch: &Option<bool>) -> (res: bool)
    ensures
        res == is_on(*switch),
{
    match switch {
        Some(b) => *b,
        None => false,
    }
}

// ───────────────────────────── Social ─────────────────────────────

/// `badges` with the badge of one platform appended, when the profile has
/// an address there and the platform is a known one.
pub open spec fn with_badge(badges: Seq<Seq<char>>, platform: Seq<char>, url: Option<String>) -> Seq<
    Seq<char>,
> {
    match url {
        Some(u) => match urls::platform_info(lowercase(platform)) {
            Some((label, logo, color)) => badges.push(
                urls::spec_social_badge_markdown(label, color, logo, u@),
            ),
            None => badges,
        },
        None => badges,
    }
}

/// The badges of all platforms the profile has an address at, in the fixed
/// order of the platforms.
pub open spec fn social_badges(social: Social) -> Seq<Seq<char>> {
    let badges = Seq::<Seq<char>>::empty();
    let badges = with_badge(badges, "github"@, social.github);
    let badges = with_badge(badges, "twitter"@, social.twitter);
    let badges = with_badge(badges, "linkedin"@, social.linkedin);
    let badges = with_badge(badges, "mastodon"@, social.mastodon);
    let badges = with_badge(badges, "bluesky"@, social.bluesky);
    let badges = with_badge(badges, "instagram"@, social.instagram);
    let badges = with_badge(badges, "youtube"@, social.youtube);
    let badges = with_badge(badges, "discord"@, social.discord);
    let badges = with_badge(badges, "devto"@, social.devto);
    let badges = with_badge(badges, "hashnode"@, social.hashnode);
    let badges = with_badge(badges, "medium"@, social.medium);
    let badges = with_badge(badges, "stackoverflow"@, social.stackoverflow);
    let badges = with_badge(badges, "reddit"@, social.reddit);
    let badges = with_badge(badges, "twitch"@, social.twitch);
    let badges = with_badge(badges, "website"@, social.website);
    let badges = with_badge(badges, "email"@, social.email);
    let badges = with_badge(badges, "kofi"@, social.kofi);
    let badges = with_badge(badges, "rss"@, social.rss);
    badges
}

/// The Social section: a title and one badge per line.
pub open spec fn spec_render_social(social: Social) -> Seq<char> {
    titled("### Connect with me"@, social_badges(social), "\n"@)
}

/// Appends the badge of one platform.
fn push_badge(badges: &mut Vec<String>, platform: &str, url: &Option<String>)
    ensures
        texts(final(badges)@) == with_badge(texts(old(badges)@), platform@, *url),
{
    if let Some(u) = url {
        if let Some((label, logo, color)) = urls::social_platform_info(platform) {
            push_text(badges, urls::social_badge_markdown(label, color, logo, u.as_str()));
        }
    }
}

/// Render the Social Links section as badges.
pub fn render_social(social: &Social) -> (res: String)
    ensures
        res@ == spec_render_social(*social),
{
    let mut badges: Vec<String> = Vec::new();
    assert(texts(badges@) =~= Seq::<Seq<char>>::empty());
    push_badge(&mut badges, "github", &social.github);
    push_badge(&mut badges, "twitter", &social.twitter);
    push_badge(&mut badges, "linkedin", &social.linkedin);
    push_badge(&mut badges, "mastodon", &social.mastodon);
    push_badge(&mut badges, "bluesky", &social.bluesky);
    push_badge(&mut badges, "instagram", &social.instagram);
    push_badge(&mut badges, "youtube", &social.youtube);
    push_badge(&mut badges, "discord", &social.discord);
    push_badge(&mut badges, "devto", &social.devto);
    push_badge(&mut badges, "hashnode", &social.hashnode);
    push_badge(&mut badges, "medium", &social.medium);
    push_badge(&mut badges, "stackoverflow", &social.stackoverflow);
    push_badge(&mut badges, "reddit", &social.reddit);
    push_badge(&mut badges, "twitch", &social.twitch);
    push_badge(&mut badges, "website", &social.website);
    push_badge(&mut badges, "email", &social.email);
    push_badge(&mut badges, "kofi", &social.kofi);
    push_badge(&mut badges, "rss", &social.rss);
    titled_block("### Connect with me", badges.as_slice(), "\n")
}

// ───────────────────────────── Skills ─────────────────────────────

/// The badge of one skill: with the icon and colour of the table when the
/// skill is known, else grey and without icon.
pub open spec fn skill_badge(skill: Seq<char>) -> Seq<char> {
    "!["@ + skill + "]("@ + (match urls::skill_icon(lowercase(skill)) {
        Some((logo, color)) => urls::spec_skill_badge_url(skill, color, logo),
        None => urls::spec_skill_badge_url(skill, "333333"@, Seq::empty()),
    }) + ")"@
}

/// The badges of a list of skills.
pub open spec fn skill_badges(skills: Seq<Seq<char>>) -> Seq<Seq<char>> {
    Seq::new(skills.len(), |i: int| skill_badge(skills[i]))
}

/// All skills of the profile: languages, frameworks, tools, databases,
/// cloud, in this order.
pub open spec fn all_skills(skills: Skills) -> Seq<Seq<char>> {
    opt_texts(skills.languages) + opt_texts(skills.frameworks) + opt_texts(skills.tools)
        + opt_texts(skills.databases) + opt_texts(skills.cloud)
}

/// The Skills section: a title and one badge per line.
pub open spec fn spec_render_skills(skills: Skills) -> Seq<char> {
    titled("### Tech Stack"@, skill_badges(all_skills(skills)), "\n"@)
}

/// Writes the badge of one skill.
fn render_skill_badge(skill: &str) -> (res: String)
    ensures
        res@ == skill_badge(skill@),
{
    let badge = match urls::skill_icon_lookup(skill) {
        Some((logo, color)) => urls::skill_badge_url(skill, color, logo),
        None => urls::skill_badge_url(skill, "333333", empty_str()),
    };
    let mut out = String::from_str("![");
    out.append(skill);
    out.append("](");
    out.append(badge.as_str());
    out.append(")");
    out
}

/// Appends the badges of one category.
fn push_skill_badges(badges: &mut Vec<String>, list: &Option<Vec<String>>)
    ensures
        texts(final(badges)@) == texts(old(badges)@) + skill_badges(opt_texts(*list)),
{
    if let Some(skills) = list {
        let mut i: usize = 0;
        while i < skills.len()
            invariant
                i <= skills@.len(),
                texts(badges@) == texts(old(badges)@) + skill_badges(
                    texts(skills@).take(i as int),
                ),
            decreases skills@.len() - i,
        {
            let badge = render_skill_badge(skills[i].as_str());
            push_text(badges, badge);
            i += 1;
        }
    }
}

/// Render the Skills / Tech Stack section as badges.
pub fn render_skills(skills: &Skills) -> (res: String)
    ensures
        res@ == spec_render_skills(*skills),
{
    let mut all_badges: Vec<String> = Vec::new();
    push_skill_badges(&mut all_badges, &skills.languages);
    push_skill_badges(&mut all_badges, &skills.frameworks);
    push_skill_badges(&mut all_badges, &skills.tools);
    push_skill_badges(&mut all_badges, &skills.databases);
    push_skill_badges(&mut all_badges, &skills.cloud);
    assert(texts(all_badges@) =~= skill_badges(all_skills(*skills)));
    titled_block("### Tech Stack", all_badges.as_slice(), "\n")
}

// ───────────────────────────── Stats ─────────────────────────────

/// The theme of the stats cards: the configured one, or `default`.
pub open spec fn stats_theme(stats: Stats) -> Seq<char> {
    opt_text(stats.theme, "default"@)
}

/// The number of languages on the top languages card: the configured one,
/// or 8.
pub open spec fn top_langs_count(stats: Stats) -> u32 {
    match stats.top_langs_count {
        Some(n) => n,
        None => 8,
    }
}

/// An image in markdown: a caption and an address.
pub open spec fn image(caption: Seq<char>, url: Seq<char>) -> Seq<char> {
    "!["@ + caption + "]("@ + url + ")"@
}

/// The cards that are switched on, in their fixed order: stats, top
/// languages, streak, contributor stats, trophies, profile views.
pub open spec fn stats_cards(stats: Stats, meta: Meta) -> Seq<Seq<char>> {
    let user = meta.username@;
    let theme = stats_theme(stats);
    let hide_border = is_on(stats.hide_border);
    let cards = Seq::<Seq<char>>::empty();
    let cards = with_item(
        cards,
        is_on(stats.stats_card),
        image(
            display_name(meta) + "'s GitHub stats"@,
            urls::spec_github_stats_url(user, theme, true, hide_border),
        ),
    );
    let cards = with_item(
        cards,
        is_on(stats.top_langs),
        image(
            "Top Langs"@,
            urls::spec_top_langs_url(
                user,
                opt_text(stats.top_langs_layout, "compact"@),
                top_langs_count(stats),
                theme,
                hide_border,
            ),
        ),
    );
    let cards = with_item(
        cards,
        is_on(stats.streak),
        image("GitHub Streak"@, urls::spec_streak_stats_url(user, theme, hide_border)),
    );
    let cards = with_item(
        cards,
        is_on(stats.contributor_stats),
        image("Contributor Stats"@, urls::spec_contributor_stats_url(user, theme, hide_border)),
    );
    let cards = with_item(
        cards,
        is_on(stats.trophies),
        image("Trophies"@, urls::spec_trophies_url(user, theme)),
    );
    let cards = with_item(
        cards,
        is_on(stats.profile_views),
        image("Profile Views"@, urls::spec_profile_views_url(user)),
    );
    cards
}

/// The Stats section: a title and the cards, a blank line between each two.
pub open spec fn spec_render_stats(stats: Stats, meta: Meta) -> Seq<char> {
    titled("### GitHub Stats"@, stats_cards(stats, meta), "\n\n"@)
}

/// Writes an image in markdown.
fn render_image(caption: &str, url: &str) -> (res: String)
    ensures
        res@ == image(caption@, url@),
{
    let mut out = String::from_str("![");
    out.append(caption);
    out.append("](");
    out.append(url);
    out.append(")");
    out
}

/// Render the GitHub Stats section.
pub fn render_stats(stats: &Stats, meta: &Meta) -> (res: String)
    ensures
        res@ == spec_render_stats(*stats, *meta),
{
    let theme = opt_str(&stats.theme, "default");
    let hide_border = switch_on(&stats.hide_border);
    let user = meta.username.as_str();
    let mut cards: Vec<String> = Vec::new();
    assert(texts(cards@) =~= Seq::<Seq<char>>::empty());

    if switch_on(&stats.stats_card) {
        let url = urls::github_stats_url(user, theme, true, hide_border);
        let mut caption = String::from_str(opt_str(&meta.name, user));
        caption.append("'s GitHub stats");
        push_text(&mut cards, render_image(caption.as_str(), url.as_str()));
    }
    if switch_on(&stats.top_langs) {
        let layout = opt_str(&stats.top_langs_layout, "compact");
        let count: u32 = match stats.top_langs_count {
            Some(n) => n,
            None => 8,
        };
        let url = urls::top_langs_url(user, layout, count, theme, hide_border);
        push_text(&mut cards, render_image("Top Langs", url.as_str()));
    }
    if switch_on(&stats.streak) {
        let url = urls::streak_stats_url(user, theme, hide_border);
        push_text(&mut cards, render_image("GitHub Streak", url.as_str()));
    }
    if switch_on(&stats.contributor_stats) {
        let url = urls::contributor_stats_url(user, theme, hide_border);
        push_text(&mut cards, render_image("Contributor Stats", url.as_str()));
    }
    if switch_on(&stats.trophies) {
        let url = urls::trophies_url(user, theme);
        push_text(&mut cards, render_image("Trophies", url.as_str()));
    }
    if switch_on(&stats.profile_views) {
        let url = urls::profile_views_url(user);
        push_text(&mut cards, render_image("Profile Views", url.as_str()));
    }
    titled_block("### GitHub Stats", cards.as_slice(), "\n\n")
}

// ───────────────────────────── Projects ─────────────────────────────

/// Owner and name of a repository: the parts before and after the first
/// slash, or the profile's user and the whole text when there is no slash.
pub open spec fn repo_parts(repo: Seq<char>, username: Seq<char>) -> (Seq<char>, Seq<char>) {
    match first_index_of(repo, '/') {
        Some(i) => (repo.take(i), repo.skip(i + 1)),
        None => (username, repo),
    }
}

/// A repository as a pin card that links to it.
pub open spec fn pin_card(
    owner: Seq<char>,
    repo: Seq<char>,
    theme: Seq<char>,
    hide_border: bool,
) -> Seq<char> {
    "<a href=\"https://github.com/"@ + owner + "/"@ + repo
        + "\">\n  <img align=\"center\" src=\""@ + urls::spec_pin_card_url(
        owner,
        repo,
        theme,
        hide_border,
    ) + "\" />\n</a>"@
}

/// A repository as a table row that links to it.
pub open spec fn table_row(owner: Seq<char>, repo: Seq<char>) -> Seq<char> {
    "| ["@ + repo + "](https://github.com/"@ + owner + "/"@ + repo + ") | |"@
}

/// Whether the projects are shown as a table; pin cards are the default.
pub open spec fn shows_table(projects: Projects) -> bool {
    projects.display == Some(ProjectDisplay::MarkdownTable)
}

/// One repository in the chosen display.
pub open spec fn project_item(
    repo: Seq<char>,
    username: Seq<char>,
    table: bool,
    theme: Seq<char>,
    hide_border: bool,
) -> Seq<char> {
    let (owner, name) = repo_parts(repo, username);
    if table {
        table_row(owner, name)
    } else {
        pin_card(owner, name, theme, hide_border)
    }
}

/// All repositories in the chosen display.
pub open spec fn project_items(
    repos: Seq<Seq<char>>,
    username: Seq<char>,
    table: bool,
    theme: Seq<char>,
    hide_border: bool,
) -> Seq<Seq<char>> {
    Seq::new(repos.len(), |i: int| project_item(repos[i], username, table, theme, hide_border))
}

/// The Projects section: a title, then the pin cards one per line, or a
/// table with a head row and one row per repository. Nothing without
/// repositories.
pub open spec fn spec_render_projects(
    projects: Projects,
    meta: Meta,
    theme: Seq<char>,
    hide_border: bool,
) -> Seq<char> {
    let repos = opt_texts(projects.repos);
    if repos.len() == 0 {
        Seq::empty()
    } else {
        let table = shows_table(projects);
        let items = project_items(repos, meta.username@, table, theme, hide_border);
        "### Featured Projects\n\n"@ + (if table {
            "| Project | Description |\n|---|---|"@ + "\n"@ + join(items, "\n"@)
        } else {
            join(items, "\n"@)
        })
    }
}

/// Writes one repository in the chosen display.
fn render_project_item(repo_str: &str, username: &str, table: bool, theme: &str, hide_border: bool) -> (res:
    String)
    ensures
        res@ == project_item(repo_str@, username@, table, theme@, hide_border),
{
    let (owner, repo): (&str, &str) = match split_once_char(repo_str, '/') {
        Some(parts) => parts,
        None => (username, repo_str),
    };
    if table {
        let mut out = String::from_str("| [");
        out.append(repo);
        out.append("](https://github.com/");
        out.append(owner);
        out.append("/");
        out.append(repo);
        out.append(") | |");
        out
    } else {
        let url = urls::pin_card_url(owner, repo, theme, hide_border);
        let mut out = String::from_str("<a href=\"https://github.com/");
        out.append(owner);
        out.append("/");
        out.append(repo);
        out.append("\">\n  <img align=\"center\" src=\"");
        out.append(url.as_str());
        out.append("\" />\n</a>");
        out
    }
}

/// Render the Featured Projects section.
pub fn render_projects(projects: &Projects, meta: &Meta, theme: &str, hide_border: bool) -> (res:
    String)
    ensures
        res@ == spec_render_projects(*projects, *meta, theme@, hide_border),
{
    let repos: &Vec<String> = match &projects.repos {
        Some(r) => r,
        None => {
            return String::new();
        },
    };
    if repos.len() == 0 {
        return String::new();
    }
    let table = match &projects.display {
        Some(ProjectDisplay::MarkdownTable) => true,
        _ => false,
    };
    let ghost all = project_items(texts(repos@), meta.username@, table, theme@, hide_border);
    let mut items: Vec<String> = Vec::new();
    let mut i: usize = 0;
    while i < repos.len()
        invariant
            i <= repos@.len(),
            all == project_items(texts(repos@), meta.username@, table, theme@, hide_border),
            texts(items@) == all.take(i as int),
        decreases repos@.len() - i,
    {
        let item = render_project_item(
            repos[i].as_str(),
            meta.username.as_str(),
            table,
            theme,
            hide_border,
        );
        push_text(&mut items, item);
        i += 1;
    }
    assert(all.take(repos@.len() as int) =~= all);
    let mut out = String::from_str("### Featured Projects\n\n");
    if table {
        let mut content = String::from_str("| Project | Description |\n|---|---|");
        content.append("\n");
        content.append(join_strings(items.as_slice(), "\n").as_str());
        out.append(content.as_str());
    } else {
        out.append(join_strings(items.as_slice(), "\n").as_str());
    }
    out
}

// ───────────────────────────── Blog ─────────────────────────────

/// One article as a numbered link; `index` counts from 0, the number shown
/// from 1.
pub open spec fn article_line(index: nat, article: Article) -> Seq<char> {
    decimal(index + 1) + ". ["@ + article.title@ + "]("@ + article.url@ + ")"@
}

/// The articles as numbered links.
pub open spec fn article_lines(articles: Seq<Article>) -> Seq<Seq<char>> {
    Seq::new(articles.len(), |i: int| article_line(i as nat, articles[i]))
}

/// The articles of a blog section; none when there is no list.
pub open spec fn blog_articles(blog: Blog) -> Seq<Article> {
    match blog.articles {
        Some(a) => a@,
        None => Seq::empty(),
    }
}

/// The blocks of the Blog section, in their fixed order: the markers
/// between which a feed is filled in (when a feed is configured), the
/// numbered articles, the YouTube link, the newsletter link.
pub open spec fn blog_blocks(blog: Blog) -> Seq<Seq<char>> {
    let blocks = Seq::<Seq<char>>::empty();
    let blocks = with_item(
        blocks,
        opt_texts(blog.rss_urls).len() > 0,
        "<!-- BLOG-POST-LIST:START -->\n<!-- BLOG-POST-LIST:END -->"@,
    );
    let blocks = with_item(
        blocks,
        blog_articles(blog).len() > 0,
        join(article_lines(blog_articles(blog)), "\n"@),
    );
    let blocks = with_line(blocks, "**YouTube**: [My Channel]("@, blog.youtube, ")"@);
    let blocks = with_line(blocks, "**Newsletter**: [Subscribe]("@, blog.newsletter, ")"@);
    blocks
}

/// The Blog section: a title and the blocks, a blank line between each two.
pub open spec fn spec_render_blog(blog: Blog) -> Seq<char> {
    titled("### Latest Blog Posts"@, blog_blocks(blog), "\n\n"@)
}

/// Writes the numbered list of articles.
fn render_articles(articles: &Vec<Article>) -> (res: String)
    ensures
        res@ == join(article_lines(articles@), "\n"@),
{
    let ghost all = article_lines(articles@);
    let mut lines: Vec<String> = Vec::new();
    let mut i: usize = 0;
    while i < articles.len()
        invariant
            i <= articles@.len(),
            all == article_lines(articles@),
            texts(lines@) == all.take(i as int),
        decreases articles@.len() - i,
    {
        let mut line = decimal_string((i + 1) as u64);
        line.append(". [");
        line.append(articles[i].title.as_str());
        line.append("](");
        line.append(articles[i].url.as_str());
        line.append(")");
        push_text(&mut lines, line);
        i += 1;
    }
    assert(all.take(articles@.len() as int) =~= all);
    join_strings(lines.as_slice(), "\n")
}

/// Render the Blog / Content section.
pub fn render_blog(blog: &Blog) -> (res: String)
    ensures
        res@ == spec_render_blog(*blog),
{
    let mut sections: Vec<String> = Vec::new();
    assert(texts(sections@) =~= Seq::<Seq<char>>::empty());

    // RSS markers for GitHub Action
    if let Some(rss_urls) = &blog.rss_urls {
        if rss_urls.len() > 0 {
            push_text(
                &mut sections,
                String::from_str("<!-- BLOG-POST-LIST:START -->\n<!-- BLOG-POST-LIST:END -->"),
            );
        }
    }
    // Manual articles
    if let Some(articles) = &blog.articles {
        if articles.len() > 0 {
            push_text(&mut sections, render_articles(articles));
        }
    }
    push_line(&mut sections, "**YouTube**: [My Channel](", &blog.youtube, ")");
    push_line(&mut sections, "**Newsletter**: [Subscribe](", &blog.newsletter, ")");
    titled_block("### Latest Blog Posts", sections.as_slice(), "\n\n")
}

// ───────────────────────────── Dynamic ─────────────────────────────

/// The StackOverflow flair as an image that links to the user's page.
pub open spec fn stackoverflow_block(uid: Seq<char>) -> Seq<char> {
    "### StackOverflow\n\n[![StackOverflow]("@ + urls::spec_stackoverflow_badge_url(uid)
        + ")](https://stackoverflow.com/users/"@ + uid + ")"@
}

/// The blocks of the Dynamic section, in their fixed order: Spotify,
/// WakaTime, recent activity, StackOverflow.
pub open spec fn dynamic_blocks(dynamic: Dynamic) -> Seq<Seq<char>> {
    let blocks = Seq::<Seq<char>>::empty();
    let blocks = match dynamic.spotify_uid {
        Some(uid) => blocks.push("### Spotify\n\n"@ + urls::spec_spotify_badge_markdown(uid@)),
        None => blocks,
    };
    let blocks = with_item(
        blocks,
        is_on(dynamic.wakatime),
        "### WakaTime\n\n<!-- WAKATIME:START -->\n<!-- WAKATIME:END -->"@,
    );
    let blocks = with_item(
        blocks,
        is_on(dynamic.github_activity),
        "### Recent Activity\n\n<!--START_SECTION:activity-->\n<!--END_SECTION:activity-->"@,
    );
    let blocks = match dynamic.stackoverflow_uid {
        Some(uid) => blocks.push(stackoverflow_block(uid@)),
        None => blocks,
    };
    blocks
}

/// The Dynamic section: its blocks, a blank line between each two.
pub open spec fn spec_render_dynamic(dynamic: Dynamic) -> Seq<char> {
    join(dynamic_blocks(dynamic), "\n\n"@)
}

/// Render the Dynamic / Real-time section.
pub fn render_dynamic(dynamic: &Dynamic) -> (res: String)
    ensures
        res@ == spec_render_dynamic(*dynamic),
{
    let mut items: Vec<String> = Vec::new();
    assert(texts(items@) =~= Seq::<Seq<char>>::empty());

    if let Some(uid) = &dynamic.spotify_uid {
        let mut block = String::from_str("### Spotify\n\n");
        block.append(urls::spotify_badge_markdown(uid.as_str()).as_str());
        push_text(&mut items, block);
    }
    if switch_on(&dynamic.wakatime) {
        push_text(
            &mut items,
            String::from_str("### WakaTime\n\n<!-- WAKATIME:START -->\n<!-- WAKATIME:END -->"),
        );
    }
    if switch_on(&dynamic.github_activity) {
        push_text(
            &mut items,
            String::from_str(
                "### Recent Activity\n\n<!--START_SECTION:activity-->\n<!--END_SECTION:activity-->",
            ),
        );
    }
    if let Some(uid) = &dynamic.stackoverflow_uid {
        let url = urls::stackoverflow_badge_url(uid.as_str());
        let mut block = String::from_str("### StackOverflow\n\n[![StackOverflow](");
        block.append(url.as_str());
        block.append(")](https://stackoverflow.com/users/");
        block.append(uid.as_str());
        block.append(")");
        push_text(&mut items, block);
    }
    join_strings(items.as_slice(), "\n\n")
}

// ───────────────────────────── Sponsors ─────────────────────────────

/// The badges of the Sponsors section, in their fixed order: GitHub
/// Sponsors, Ko-fi, Buy Me a Coffee.
pub open spec fn sponsor_badges(sponsors: Sponsors, meta: Meta) -> Seq<Seq<char>> {
    let badges = Seq::<Seq<char>>::empty();
    let badges = with_item(
        badges,
        is_on(sponsors.github_sponsors),
        "[![Sponsor](https://img.shields.io/badge/Sponsor-EA4AAA?style=for-the-badge&logo=githubsponsors&logoColor=white)](https://github.com/sponsors/"@
            + meta.username@ + ")"@,
    );
    let badges = with_line(
        badges,
        "[![Ko-fi](https://img.shields.io/badge/Ko--fi-FF5E5B?style=for-the-badge&logo=kofi&logoColor=white)]("@,
        sponsors.kofi,
        ")"@,
    );
    let badges = with_line(
        badges,
        "[![Buy Me a Coffee](https://img.shields.io/badge/Buy_Me_A_Coffee-FFDD00?style=for-the-badge&logo=buymeacoffee&logoColor=black)]("@,
        sponsors.buy_me_a_coffee,
        ")"@,
    );
    badges
}

/// The Sponsors section: a title and one badge per line.
pub open spec fn spec_render_sponsors(sponsors: Sponsors, meta: Meta) -> Seq<char> {
    titled("### Support"@, sponsor_badges(sponsors, meta), "\n"@)
}

/// Render the Sponsors section.
pub fn render_sponsors(sponsors: &Sponsors, meta: &Meta) -> (res: String)
    ensures
        res@ == spec_render_sponsors(*sponsors, *meta),
{
    let mut items: Vec<String> = Vec::new();
    assert(texts(items@) =~= Seq::<Seq<char>>::empty());

    if switch_on(&sponsors.github_sponsors) {
        let mut badge = String::from_str(
            "[![Sponsor](https://img.shields.io/badge/Sponsor-EA4AAA?style=for-the-badge&logo=githubsponsors&logoColor=white)](https://github.com/sponsors/",
        );
        badge.append(meta.username.as_str());
        badge.append(")");
        push_text(&mut items, badge);
    }
    push_line(
        &mut items,
        "[![Ko-fi](https://img.shields.io/badge/Ko--fi-FF5E5B?style=for-the-badge&logo=kofi&logoColor=white)](",
        &sponsors.kofi,
        ")",
    );
    push_line(
        &mut items,
        "[![Buy Me a Coffee](https://img.shields.io/badge/Buy_Me_A_Coffee-FFDD00?style=for-the-badge&logo=buymeacoffee&logoColor=black)](",
        &sponsors.buy_me_a_coffee,
        ")",
    );
    titled_block("### Support", items.as_slice(), "\n")
}

// ───────────────────────────── Extras ─────────────────────────────

/// The PGP badge: the fingerprint with its spaces percent-encoded.
pub open spec fn pgp_badge(fingerprint: Seq<char>) -> Seq<char> {
    "![PGP](https://img.shields.io/badge/PGP-"@ + replace_char(fingerprint, ' ', "%20"@)
        + "-333333?style=flat-square&logo=gnuprivacyguard&logoColor=white)"@
}

/// The gaming profiles as bullet lines: Xbox, Steam, PSN.
pub open spec fn gaming_lines(extras: Extras) -> Seq<Seq<char>> {
    let lines = Seq::<Seq<char>>::empty();
    let lines = with_line(lines, "- **Xbox**: "@, extras.xbox, Seq::empty());
    let lines = with_line(lines, "- **Steam**: "@, extras.steam, Seq::empty());
    let lines = with_line(lines, "- **PSN**: "@, extras.psn, Seq::empty());
    lines
}

/// One collapsible block: a summary line and the content that unfolds.
pub open spec fn collapsible_block(section: CollapsibleSection) -> Seq<char> {
    "<details>\n<summary>"@ + section.summary@ + "</summary>\n\n"@ + section.content@
        + "\n\n</details>"@
}

/// The collapsible blocks of the extras; none when there is no list.
pub open spec fn collapsible_blocks(list: Option<Vec<CollapsibleSection>>) -> Seq<Seq<char>> {
    match list {
        Some(v) => Seq::new(v@.len(), |i: int| collapsible_block(v@[i])),
        None => Seq::empty(),
    }
}

/// The blocks of the Extras section, in their fixed order: PGP badge,
/// gaming profiles, certifications, collapsible blocks, custom blocks.
pub open spec fn extras_blocks(extras: Extras) -> Seq<Seq<char>> {
    let blocks = Seq::<Seq<char>>::empty();
    let blocks = match extras.pgp_fingerprint {
        Some(pgp) => blocks.push(pgp_badge(pgp@)),
        None => blocks,
    };
    let blocks = with_item(
        blocks,
        gaming_lines(extras).len() > 0,
        "**Gaming**\n\n"@ + join(gaming_lines(extras), "\n"@),
    );
    let blocks = with_item(
        blocks,
        opt_texts(extras.certifications).len() > 0,
        "**Certifications**\n\n"@ + join(
            prefixed(opt_texts(extras.certifications), "- "@),
            "\n"@,
        ),
    );
    blocks + collapsible_blocks(extras.collapsible) + opt_texts(extras.custom_blocks)
}

/// The Extras section: its blocks, a blank line between each two.
pub open spec fn spec_render_extras(extras: Extras) -> Seq<char> {
    join(extras_blocks(extras), "\n\n"@)
}

/// Render the Extras section.
pub fn render_extras(extras: &Extras) -> (res: String)
    ensures
        res@ == spec_render_extras(*extras),
{
    let mut items: Vec<String> = Vec::new();

    if let Some(pgp) = &extras.pgp_fingerprint {
        let mut badge = String::from_str("![PGP](https://img.shields.io/badge/PGP-");
        badge.append(replace_char_in(pgp.as_str(), ' ', "%20").as_str());
        badge.append("-333333?style=flat-square&logo=gnuprivacyguard&logoColor=white)");
        push_text(&mut items, badge);
    }
    // Gaming profiles
    let mut gaming: Vec<String> = Vec::new();
    assert(texts(gaming@) =~= Seq::<Seq<char>>::empty());
    push_line(&mut gaming, "- **Xbox**: ", &extras.xbox, empty_str());
    push_line(&mut gaming, "- **Steam**: ", &extras.steam, empty_str());
    push_line(&mut gaming, "- **PSN**: ", &extras.psn, empty_str());
    if gaming.len() > 0 {
        let mut block = String::from_str("**Gaming**\n\n");
        block.append(join_strings(gaming.as_slice(), "\n").as_str());
        push_text(&mut items, block);
    }
    // Certifications
    if let Some(certs) = &extras.certifications {
        if certs.len() > 0 {
            let mut block = String::from_str("**Certifications**\n\n");
            block.append(join_prefixed(certs.as_slice(), "- ", "\n").as_str());
            push_text(&mut items, block);
        }
    }
    let ghost fixed = texts(items@);
    // Collapsible sections
    if let Some(collapsibles) = &extras.collapsible {
        let ghost all = collapsible_blocks(extras.collapsible);
        let mut i: usize = 0;
        while i < collapsibles.len()
            invariant
                i <= collapsibles@.len(),
                extras.collapsible == Some(*collapsibles),
                all == collapsible_blocks(extras.collapsible),
                texts(items@) == fixed + all.take(i as int),
            decreases collapsibles@.len() - i,
        {
            let section = &collapsibles[i];
            let mut block = String::from_str("<details>\n<summary>");
            block.append(section.summary.as_str());
            block.append("</summary>\n\n");
            block.append(section.content.as_str());
            block.append("\n\n</details>");
            push_text(&mut items, block);
            i += 1;
        }
        assert(all.take(collapsibles@.len() as int) =~= all);
    }
    let ghost folded = texts(items@);
    // Custom markdown blocks
    if let Some(blocks) = &extras.custom_blocks {
        let mut i: usize = 0;
        while i < blocks.len()
            invariant
                i <= blocks@.len(),
                texts(items@) == folded + texts(blocks@).take(i as int),
            decreases blocks@.len() - i,
        {
            push_text(&mut items, blocks[i].clone());
            i += 1;
        }
        assert(texts(blocks@).take(blocks@.len() as int) =~= texts(blocks@));
    }
    join_strings(items.as_slice(), "\n\n")
}

} // verus!
