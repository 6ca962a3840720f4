//! Addresses of badges and cards, and the lookup tables for skill icons and
//! social platforms.

use crate::text::{
    bool_str, bool_text, decimal, decimal_string, first_index_of, join, join_strs,
    lemma_first_index_unique, lowercase, push_char, replace_char, replace_char_in, str_eq,
    str_texts, to_lowercase,
};
use vstd::prelude::*;
use vstd::string::*;

verus! {

/// Skill names in lowercase, each with its simple-icons slug and hex colour.
pub const SKILL_ICONS: [(&'static str, &'static str, &'static str); 71] = [
    ("rust", "rust", "000000"),
    ("python", "python", "3776AB"),
    ("typescript", "typescript", "3178C6"),
    ("javascript", "javascript", "F7DF1E"),
    ("go", "go", "00ADD8"),
    ("c", "c", "A8B9CC"),
    ("c++", "cplusplus", "00599C"),
    ("java", "openjdk", "ED8B00"),
    ("kotlin", "kotlin", "7F52FF"),
    ("swift", "swift", "FA7343"),
    ("ruby", "ruby", "CC342D"),
    ("php", "php", "777BB4"),
    ("elixir", "elixir", "4B275F"),
    ("haskell", "haskell", "5D4F85"),
    ("scala", "scala", "DC322F"),
    ("zig", "zig", "F7A41D"),
    ("lua", "lua", "2C2D72"),
    ("dart", "dart", "0175C2"),
    ("r", "r", "276DC3"),
    ("shell", "gnubash", "4EAA25"),
    ("bash", "gnubash", "4EAA25"),
    ("shell/bash", "gnubash", "4EAA25"),
    ("react", "react", "61DAFB"),
    ("vue", "vuedotjs", "4FC08D"),
    ("vue.js", "vuedotjs", "4FC08D"),
    ("svelte", "svelte", "FF3E00"),
    ("angular", "angular", "0F0F11"),
    ("next.js", "nextdotjs", "000000"),
    ("nextjs", "nextdotjs", "000000"),
    ("actix", "actix", "000000"),
    ("axum", "rust", "000000"),
    ("rocket", "rocket", "D33847"),
    ("django", "django", "092E20"),
    ("flask", "flask", "000000"),
    ("fastapi", "fastapi", "009688"),
    ("rails", "rubyonrails", "CC0000"),
    ("ruby on rails", "rubyonrails", "CC0000"),
    ("spring", "spring", "6DB33F"),
    ("express", "express", "000000"),
    ("express.js", "express", "000000"),
    ("gin", "go", "00ADD8"),
    ("echo", "go", "00ADD8"),
    ("docker", "docker", "2496ED"),
    ("git", "git", "F05032"),
    ("neovim", "neovim", "57A143"),
    ("vs code", "visualstudiocode", "007ACC"),
    ("vscode", "visualstudiocode", "007ACC"),
    ("github actions", "githubactions", "2088FF"),
    ("terraform", "terraform", "844FBA"),
    ("ansible", "ansible", "EE0000"),
    ("kubernetes", "kubernetes", "326CE5"),
    ("nginx", "nginx", "009639"),
    ("linux", "linux", "FCC624"),
    ("postgresql", "postgresql", "4169E1"),
    ("postgres", "postgresql", "4169E1"),
    ("mysql", "mysql", "4479A1"),
    ("sqlite", "sqlite", "003B57"),
    ("mongodb", "mongodb", "47A248"),
    ("redis", "redis", "FF4438"),
    ("dynamodb", "amazondynamodb", "4053D6"),
    ("cockroachdb", "cockroachlabs", "6933FF"),
    ("clickhouse", "clickhouse", "FFCC01"),
    ("aws", "amazonwebservices", "232F3E"),
    ("gcp", "googlecloud", "4285F4"),
    ("google cloud", "googlecloud", "4285F4"),
    ("azure", "microsoftazure", "0078D4"),
    ("vercel", "vercel", "000000"),
    ("cloudflare", "cloudflare", "F38020"),
    ("digitalocean", "digitalocean", "0080FF"),
    ("fly.io", "flydotio", "24175B"),
    ("heroku", "heroku", "430098"),
];

/// Platform names in lowercase, each with its display label, logo slug and
/// badge colour.
pub const SOCIAL_PLATFORMS: [(&'static str, &'static str, &'static str, &'static str); 21] = [
    ("github", "GitHub", "github", "181717"),
    ("twitter", "Twitter", "x", "000000"),
    ("x", "Twitter", "x", "000000"),
    ("linkedin", "LinkedIn", "linkedin", "0077B5"),
    ("mastodon", "Mastodon", "mastodon", "6364FF"),
    ("bluesky", "Bluesky", "bluesky", "0085FF"),
    ("instagram", "Instagram", "instagram", "E4405F"),
    ("youtube", "YouTube", "youtube", "FF0000"),
    ("discord", "Discord", "discord", "5865F2"),
    ("devto", "Dev.to", "devdotto", "0A0A0A"),
    ("dev.to", "Dev.to", "devdotto", "0A0A0A"),
    ("hashnode", "Hashnode", "hashnode", "2962FF"),
    ("medium", "Medium", "medium", "000000"),
    ("stackoverflow", "StackOverflow", "stackoverflow", "F58025"),
    ("reddit", "Reddit", "reddit", "FF4500"),
    ("twitch", "Twitch", "twitch", "9146FF"),
    ("website", "Website", "googlechrome", "4285F4"),
    ("email", "Email", "gmail", "EA4335"),
    ("kofi", "Ko-fi", "kofi", "FF5E5B"),
    ("ko-fi", "Ko-fi", "kofi", "FF5E5B"),
    ("rss", "RSS", "rss", "FFA500"),
];

/// The address of the github-readme-stats card.
pub open spec fn spec_github_stats_url(username: Seq<char>, theme: Seq<char>, show_icons: bool, hide_border: bool) -> Seq<char> {
    "https://github-readme-stats.vercel.app/api?username="@ + username + "&theme="@ + theme + "&show_icons="@ + bool_text(show_icons) + "&hide_border="@ + bool_text(hide_border)
}

/// URL builder for github-readme-stats card.
pub fn github_stats_url(username: &str, theme: &str, show_icons: bool, hide_border: bool) -> (res: String)
    ensures
        res@ == spec_github_stats_url(username@, theme@, show_icons, hide_border),
{
    let mut out = String::from_str("https://github-readme-stats.vercel.app/api?username=");
    out.append(username);
    out.append("&theme=");
    out.append(theme);
    out.append("&show_icons=");
    out.append(bool_str(show_icons));
    out.append("&hide_border=");
    out.append(bool_str(hide_border));
    out
}

/// The address of the top languages card.
pub open spec fn spec_top_langs_url(username: Seq<char>, layout: Seq<char>, langs_count: u32, theme: Seq<char>, hide_border: bool) -> Seq<char> {
    "https://github-readme-stats.vercel.app/api/top-langs/?username="@ + username + "&layout="@ + layout + "&langs_count="@ + decimal(langs_count as nat) + "&theme="@ + theme + "&hide_border="@ + bool_text(hide_border)
}

/// URL builder for top languages card.
pub fn top_langs_url(username: &str, layout: &str, langs_count: u32, theme: &str, hide_border: bool) -> (res: String)
    ensures
        res@ == spec_top_langs_url(username@, layout@, langs_count, theme@, hide_border),
{
    let mut out = String::from_str("https://github-readme-stats.vercel.app/api/top-langs/?username=");
    out.append(username);
    out.append("&layout=");
    out.append(layout);
    out.append("&langs_count=");
    out.append(decimal_string(langs_count as u64).as_str());
    out.append("&theme=");
    out.append(theme);
    out.append("&hide_border=");
    out.append(bool_str(hide_border));
    out
}

/// The address of the GitHub streak card.
pub open spec fn spec_streak_stats_url(username: Seq<char>, theme: Seq<char>, hide_border: bool) -> Seq<char> {
    "https://streak-stats.demolab.com/?user="@ + username + "&theme="@ + theme + "&hide_border="@ + bool_text(hide_border)
}

/// URL builder for GitHub streak stats.
pub fn streak_stats_url(username: &str, theme: &str, hide_border: bool) -> (res: String)
    ensures
        res@ == spec_streak_stats_url(username@, theme@, hide_border),
{
    let mut out = String::from_str("https://streak-stats.demolab.com/?user=");
    out.append(username);
    out.append("&theme=");
    out.append(theme);
    out.append("&hide_border=");
    out.append(bool_str(hide_border));
    out
}

/// The address of the komarev profile views counter.
pub open spec fn spec_profile_views_url(username: Seq<char>) -> Seq<char> {
    "https://komarev.com/ghpvc/?username="@ + username + "&color=blue&style=flat"@
}

/// URL builder for komarev profile views counter.
pub fn profile_views_url(username: &str) -> (res: String)
    ensures
        res@ == spec_profile_views_url(username@),
{
    let mut out = String::from_str("https://komarev.com/ghpvc/?username=");
    out.append(username);
    out.append("&color=blue&style=flat");
    out
}

/// The address of the spotify-github-profile card.
pub open spec fn spec_spotify_url(uid: Seq<char>) -> Seq<char> {
    "https://spotify-github-profile.kittinan.vercel.app/api/view?uid="@ + uid + "&cover_image=true"@
}

/// URL builder for spotify-github-profile.
pub fn spotify_url(uid: &str) -> (res: String)
    ensures
        res@ == spec_spotify_url(uid@),
{
    let mut out = String::from_str("https://spotify-github-profile.kittinan.vercel.app/api/view?uid=");
    out.append(uid);
    out.append("&cover_image=true");
    out
}

/// The address of the github-readme-stats pin card of one repository.
pub open spec fn spec_pin_card_url(username: Seq<char>, repo: Seq<char>, theme: Seq<char>, hide_border: bool) -> Seq<char> {
    "https://github-readme-stats.vercel.app/api/pin/?username="@ + username + "&repo="@ + repo + "&theme="@ + theme + "&hide_border="@ + bool_text(hide_border)
}

/// URL builder for github-readme-stats pin card.
pub fn pin_card_url(username: &str, repo: &str, theme: &str, hide_border: bool) -> (res: String)
    ensures
        res@ == spec_pin_card_url(username@, repo@, theme@, hide_border),
{
    let mut out = String::from_str("https://github-readme-stats.vercel.app/api/pin/?username=");
    out.append(username);
    out.append("&repo=");
    out.append(repo);
    out.append("&theme=");
    out.append(theme);
    out.append("&hide_border=");
    out.append(bool_str(hide_border));
    out
}

/// The address of the contributor stats card.
pub open spec fn spec_contributor_stats_url(username: Seq<char>, theme: Seq<char>, hide_border: bool) -> Seq<char> {
    "https://github-contributor-stats.vercel.app/api?username="@ + username + "&theme="@ + theme + "&hide_border="@ + bool_text(hide_border)
}

/// URL builder for the contributor stats card.
pub fn contributor_stats_url(username: &str, theme: &str, hide_border: bool) -> (res: String)
    ensures
        res@ == spec_contributor_stats_url(username@, theme@, hide_border),
{
    let mut out = String::from_str("https://github-contributor-stats.vercel.app/api?username=");
    out.append(username);
    out.append("&theme=");
    out.append(theme);
    out.append("&hide_border=");
    out.append(bool_str(hide_border));
    out
}

/// The address of the github-profile-trophy card.
pub open spec fn spec_trophies_url(username: Seq<char>, theme: Seq<char>) -> Seq<char> {
    "https://github-profile-trophy.vercel.app/?username="@ + username + "&theme="@ + theme
}

/// URL builder for github-profile-trophy.
pub fn trophies_url(username: &str, theme: &str) -> (res: String)
    ensures
        res@ == spec_trophies_url(username@, theme@),
{
    let mut out = String::from_str("https://github-profile-trophy.vercel.app/?username=");
    out.append(username);
    out.append("&theme=");
    out.append(theme);
    out
}

/// The address of the StackOverflow flair badge.
pub open spec fn spec_stackoverflow_badge_url(uid: Seq<char>) -> Seq<char> {
    "https://stackoverflow.com/users/flair/"@ + uid + ".png"@
}

/// URL builder for StackOverflow flair badge.
pub fn stackoverflow_badge_url(uid: &str) -> (res: String)
    ensures
        res@ == spec_stackoverflow_badge_url(uid@),
{
    let mut out = String::from_str("https://stackoverflow.com/users/flair/");
    out.append(uid);
    out.append(".png");
    out
}
/// What one character becomes in a query parameter: the six characters that
/// carry meaning in a URL are percent-encoded, every other one stays.
pub open spec fn encode_char(c: char) -> Seq<char> {
    if c == ' ' {
        "%20"@
    } else if c == '+' {
        "%2B"@
    } else if c == '&' {
        "%26"@
    } else if c == '=' {
        "%3D"@
    } else if c == '#' {
        "%23"@
    } else if c == '?' {
        "%3F"@
    } else {
        seq![c]
    }
}

/// The text with each character encoded for a query parameter.
pub open spec fn spec_url_encode(input: Seq<char>) -> Seq<char>
    decreases input.len(),
{
    if input.len() == 0 {
        Seq::empty()
    } else {
        spec_url_encode(input.drop_last()) + encode_char(input.last())
    }
}

/// Simple percent-encoding for URL query parameters.
pub fn url_encode(input: &str) -> (res: String)
    ensures
        res@ == spec_url_encode(input@),
{
    let mut out = String::new();
    for ch in it: input.chars()
        invariant
            it.seq() == input@,
            out@ == spec_url_encode(input@.take(it.index() as int)),
    {
        proof {
            let next = input@.take(it.index() + 1);
            assert(next.drop_last() =~= input@.take(it.index() as int));
        }
        if ch == ' ' {
            out.append("%20");
        } else if ch == '+' {
            out.append("%2B");
        } else if ch == '&' {
            out.append("%26");
        } else if ch == '=' {
            out.append("%3D");
        } else if ch == '#' {
            out.append("%23");
        } else if ch == '?' {
            out.append("%3F");
        } else {
            push_char(&mut out, ch);
        }
    }
    assert(input@.take(input@.len() as int) =~= input@);
    out
}

/// The address of the typing animation: the lines joined by `;` and
/// encoded, the font encoded, the colour as given.
pub open spec fn spec_typing_svg_url(
    lines: Seq<Seq<char>>,
    font: Seq<char>,
    color: Seq<char>,
    center: bool,
) -> Seq<char> {
    "https://readme-typing-svg.demolab.com/?lines="@ + spec_url_encode(join(lines, ";"@))
        + "&font="@ + spec_url_encode(font) + "&color="@ + color + "&center="@ + bool_text(
        center,
    ) + "&width=440&height=45&vCenter=true&pause=1000&size=22"@
}

/// URL builder for typing SVG animation.
pub fn typing_svg_url(lines: &[&str], font: &str, color: &str, center: bool) -> (res: String)
    ensures
        res@ == spec_typing_svg_url(str_texts(lines@), font@, color@, center),
{
    let lines_param = join_strs(lines, ";");
    let mut out = String::from_str("https://readme-typing-svg.demolab.com/?lines=");
    out.append(url_encode(lines_param.as_str()).as_str());
    out.append("&font=");
    out.append(url_encode(font).as_str());
    out.append("&color=");
    out.append(color);
    out.append("&center=");
    out.append(bool_str(center));
    out.append("&width=440&height=45&vCenter=true&pause=1000&size=22");
    out
}

/// A badge label as shields.io wants it: each dash doubled, then each space
/// turned into an underscore.
pub open spec fn badge_label(label: Seq<char>) -> Seq<char> {
    replace_char(replace_char(label, '-', "--"@), ' ', "_"@)
}

/// The address of a shields.io badge.
pub open spec fn spec_shields_badge_url(
    label: Seq<char>,
    color: Seq<char>,
    logo: Seq<char>,
    style: Seq<char>,
) -> Seq<char> {
    "https://img.shields.io/badge/"@ + badge_label(label) + "-"@ + color + "?style="@ + style
        + "&logo="@ + logo + "&logoColor=white"@
}

/// URL builder for shields.io badge.
pub fn shields_badge_url(label: &str, color: &str, logo: &str, style: &str) -> (res: String)
    ensures
        res@ == spec_shields_badge_url(label@, color@, logo@, style@),
{
    let doubled = replace_char_in(label, '-', "--");
    let encoded_label = replace_char_in(doubled.as_str(), ' ', "_");
    let mut out = String::from_str("https://img.shields.io/badge/");
    out.append(encoded_label.as_str());
    out.append("-");
    out.append(color);
    out.append("?style=");
    out.append(style);
    out.append("&logo=");
    out.append(logo);
    out.append("&logoColor=white");
    out
}

/// The address of a shields.io badge in the "for-the-badge" style.
pub open spec fn spec_skill_badge_url(label: Seq<char>, color: Seq<char>, logo: Seq<char>) -> Seq<
    char,
> {
    spec_shields_badge_url(label, color, logo, "for-the-badge"@)
}

/// Convenience: shields.io badge with "for-the-badge" style.
pub fn skill_badge_url(label: &str, color: &str, logo: &str) -> (res: String)
    ensures
        res@ == spec_skill_badge_url(label@, color@, logo@),
{
    shields_badge_url(label, color, logo, "for-the-badge")
}

/// A badge that links to `url`, as markdown.
pub open spec fn spec_social_badge_markdown(
    label: Seq<char>,
    color: Seq<char>,
    logo: Seq<char>,
    url: Seq<char>,
) -> Seq<char> {
    "[!["@ + label + "]("@ + spec_skill_badge_url(label, color, logo) + ")]("@ + url + ")"@
}

/// URL builder for social link badge (for-the-badge with clickable link).
pub fn social_badge_markdown(label: &str, color: &str, logo: &str, url: &str) -> (res: String)
    ensures
        res@ == spec_social_badge_markdown(label@, color@, logo@, url@),
{
    let badge = shields_badge_url(label, color, logo, "for-the-badge");
    let mut out = String::from_str("[![");
    out.append(label);
    out.append("](");
    out.append(badge.as_str());
    out.append(")](");
    out.append(url);
    out.append(")");
    out
}

/// The Spotify card as an image that links to the profile, as markdown.
pub open spec fn spec_spotify_badge_markdown(uid: Seq<char>) -> Seq<char> {
    "[![spotify-github-profile]("@ + spec_spotify_url(uid) + ")]("@ + (
    "https://spotify-github-profile.kittinan.vercel.app/api/view?uid="@ + uid
        + "&redirect=true"@) + ")"@
}

/// Spotify profile badge markdown (with redirect link).
pub fn spotify_badge_markdown(uid: &str) -> (res: String)
    ensures
        res@ == spec_spotify_badge_markdown(uid@),
{
    let img_url = spotify_url(uid);
    let mut link_url = String::from_str(
        "https://spotify-github-profile.kittinan.vercel.app/api/view?uid=",
    );
    link_url.append(uid);
    link_url.append("&redirect=true");
    let mut out = String::from_str("[![spotify-github-profile](");
    out.append(img_url.as_str());
    out.append(")](");
    out.append(link_url.as_str());
    out.append(")");
    out
}

/// The names of the platform table, row by row.
pub open spec fn platform_names() -> Seq<Seq<char>> {
    Seq::new(SOCIAL_PLATFORMS@.len(), |i: int| SOCIAL_PLATFORMS@[i].0@)
}

/// The display label, logo slug and badge colour of a platform whose name is
/// given in lowercase: those of the first row of the table with that name.
pub open spec fn platform_info(lower_name: Seq<char>) -> Option<
    (Seq<char>, Seq<char>, Seq<char>),
> {
    match first_index_of(platform_names(), lower_name) {
        Some(i) => Some(
            (SOCIAL_PLATFORMS@[i].1@, SOCIAL_PLATFORMS@[i].2@, SOCIAL_PLATFORMS@[i].3@),
        ),
        None => None,
    }
}

/// Looks a lowercase platform name up in the table.
pub fn platform_info_for(lower_name: &str) -> (res: Option<
    (&'static str, &'static str, &'static str),
>)
    ensures
        match res {
            Some((label, logo, color)) => platform_info(lower_name@) == Some(
                (label@, logo@, color@),
            ),
            None => platform_info(lower_name@) is None,
        },
{
    let mut i: usize = 0;
    while i < SOCIAL_PLATFORMS.len()
        invariant
            i <= SOCIAL_PLATFORMS@.len(),
            forall|k: int| 0 <= k < i ==> platform_names()[k] != lower_name@,
        decreases SOCIAL_PLATFORMS@.len() - i,
    {
        if str_eq(SOCIAL_PLATFORMS[i].0, lower_name) {
            proof {
                lemma_first_index_unique(platform_names(), lower_name@, i as int);
            }
            return Some((SOCIAL_PLATFORMS[i].1, SOCIAL_PLATFORMS[i].2, SOCIAL_PLATFORMS[i].3));
        }
        i += 1;
    }
    proof {
        lemma_first_index_unique(platform_names(), lower_name@, i as int);
    }
    None
}

/// Social platform metadata: (display_label, logo_slug, badge_color). The
/// name is matched without regard to case.
pub fn social_platform_info(platform: &str) -> (res: Option<
    (&'static str, &'static str, &'static str),
>)
    ensures
        match res {
            Some((label, logo, color)) => platform_info(lowercase(platform@)) == Some(
                (label@, logo@, color@),
            ),
            None => platform_info(lowercase(platform@)) is None,
        },
{
    let lower = to_lowercase(platform);
    platform_info_for(lower.as_str())
}

/// The names of the skill table, row by row.
pub open spec fn skill_names() -> Seq<Seq<char>> {
    Seq::new(SKILL_ICONS@.len(), |i: int| SKILL_ICONS@[i].0@)
}

/// The slug and colour of a skill whose name is given in lowercase: those of
/// the first row of the table with that name.
pub open spec fn skill_icon(lower_name: Seq<char>) -> Option<(Seq<char>, Seq<char>)> {
    match first_index_of(skill_names(), lower_name) {
        Some(i) => Some((SKILL_ICONS@[i].1@, SKILL_ICONS@[i].2@)),
        None => None,
    }
}

/// Looks a lowercase skill name up in the table.
pub fn skill_icon_for(lower_name: &str) -> (res: Option<(&'static str, &'static str)>)
    ensures
        match res {
            Some((slug, color)) => skill_icon(lower_name@) == Some((slug@, color@)),
            None => skill_icon(lower_name@) is None,
        },
{
    let mut i: usize = 0;
    while i < SKILL_ICONS.len()
        invariant
            i <= SKILL_ICONS@.len(),
            forall|k: int| 0 <= k < i ==> skill_names()[k] != lower_name@,
        decreases SKILL_ICONS@.len() - i,
    {
        if str_eq(SKILL_ICONS[i].0, lower_name) {
            proof {
                lemma_first_index_unique(skill_names(), lower_name@, i as int);
            }
            return Some((SKILL_ICONS[i].1, SKILL_ICONS[i].2));
        }
        i += 1;
    }
    proof {
        lemma_first_index_unique(skill_names(), lower_name@, i as int);
    }
    None
}

/// Lookup table mapping skill names to (simple-icons slug, hex color).
/// The name is matched without regard to case. Returns (slug, color) or
/// None if not found.
pub fn skill_icon_lookup(skill: &str) -> (res: Option<(&'static str, &'static str)>)
    ensures
        match res {
            Some((slug, color)) => skill_icon(lowercase(skill@)) == Some((slug@, color@)),
            None => skill_icon(lowercase(skill@)) is None,
        },
{
    let lower = to_lowercase(skill);
    skill_icon_for(lower.as_str())
}

} // verus!
