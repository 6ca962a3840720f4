//! The profile record: what a README is generated from. Every section but
//! `meta` is optional, and within a section every field is.

use vstd::prelude::*;

verus! {

/// Top-level profile configuration. All sections except `meta` are optional.
#[derive(Debug, Clone, PartialEq)]
pub struct ProfileConfig {
    pub meta: Meta,
    pub header: Option<Header>,
    pub about: Option<About>,
    pub social: Option<Social>,
    pub skills: Option<Skills>,
    pub stats: Option<Stats>,
    pub projects: Option<Projects>,
    pub blog: Option<Blog>,
    pub dynamic: Option<Dynamic>,
    pub layout: Option<Layout>,
    pub sponsors: Option<Sponsors>,
    pub extras: Option<Extras>,
}

/// Required metadata — at minimum, the GitHub username.
#[derive(Debug, Clone, PartialEq)]
pub struct Meta {
    pub username: String,
    pub name: Option<String>,
}

/// Header section: banner, typing SVG, or text greeting.
#[derive(Debug, Clone, PartialEq)]
pub struct Header {
    pub style: Option<HeaderStyle>,
    pub banner_url: Option<String>,
    pub typing_lines: Option<Vec<String>>,
    pub typing_font: Option<String>,
    pub typing_color: Option<String>,
    pub tagline: Option<String>,
}

#[derive(Debug, Clone, PartialEq)]
pub enum HeaderStyle {
    TypingSvg,
    Text,
    Banner,
    Wave,
}

/// About Me section.
#[derive(Debug, Clone, PartialEq)]
pub struct About {
    pub role: Option<String>,
    pub company: Option<String>,
    pub current_work: Option<String>,
    pub learning: Option<String>,
    pub reach_me: Option<String>,
    pub fun_fact: Option<String>,
    pub pronouns: Option<String>,
    pub location: Option<String>,
    pub timezone: Option<String>,
}

/// Social media links.
#[derive(Debug, Clone, PartialEq)]
pub struct Social {
    pub github: Option<String>,
    pub twitter: Option<String>,
    pub linkedin: Option<String>,
    pub mastodon: Option<String>,
    pub bluesky: Option<String>,
    pub instagram: Option<String>,
    pub youtube: Option<String>,
    pub discord: Option<String>,
    pub devto: Option<String>,
    pub hashnode: Option<String>,
    pub medium: Option<String>,
    pub stackoverflow: Option<String>,
    pub reddit: Option<String>,
    pub twitch: Option<String>,
    pub website: Option<String>,
    pub email: Option<String>,
    pub kofi: Option<String>,
    pub rss: Option<String>,
}

/// Skills / Tech Stack, organized by category.
#[derive(Debug, Clone, PartialEq)]
pub struct Skills {
    pub languages: Option<Vec<String>>,
    pub frameworks: Option<Vec<String>>,
    pub tools: Option<Vec<String>>,
    pub databases: Option<Vec<String>>,
    pub cloud: Option<Vec<String>>,
}

/// GitHub stats cards configuration.
#[derive(Debug, Clone, PartialEq)]
pub struct Stats {
    pub stats_card: Option<bool>,
    pub top_langs: Option<bool>,
    pub streak: Option<bool>,
    pub contributor_stats: Option<bool>,
    pub trophies: Option<bool>,
    pub contribution_snake: Option<bool>,
    pub profile_views: Option<bool>,
    pub theme: Option<String>,
    pub hide_border: Option<bool>,
    pub top_langs_layout: Option<String>,
    pub top_langs_count: Option<u32>,
}

/// Featured projects.
#[derive(Debug, Clone, PartialEq)]
pub struct Projects {
    pub repos: Option<Vec<String>>,
    pub display: Option<ProjectDisplay>,
}

#[derive(Debug, Clone, PartialEq)]
pub enum ProjectDisplay {
    PinCards,
    MarkdownTable,
}

/// Blog / Content section.
#[derive(Debug, Clone, PartialEq)]
pub struct Blog {
    pub rss_urls: Option<Vec<String>>,
    pub articles: Option<Vec<Article>>,
    pub youtube: Option<String>,
    pub newsletter: Option<String>,
}

#[derive(Debug, Clone, PartialEq)]
pub struct Article {
    pub title: String,
    pub url: String,
}

/// Dynamic / real-time integrations.
#[derive(Debug, Clone, PartialEq)]
pub struct Dynamic {
    pub spotify_uid: Option<String>,
    pub wakatime: Option<bool>,
    pub github_activity: Option<bool>,
    pub stackoverflow_uid: Option<String>,
}

/// Layout and theming.
#[derive(Debug, Clone, PartialEq)]
pub struct Layout {
    pub template: Option<Template>,
    pub dark_mode: Option<bool>,
    pub centered: Option<bool>,
}

#[derive(Debug, Clone, PartialEq)]
pub enum Template {
    Minimal,
    Full,
    DeveloperCard,
    MultiColumn,
}

/// Sponsors section.
#[derive(Debug, Clone, PartialEq)]
pub struct Sponsors {
    pub github_sponsors: Option<bool>,
    pub kofi: Option<String>,
    pub buy_me_a_coffee: Option<String>,
}

/// Extras: PGP, gaming, certifications, custom blocks.
#[derive(Debug, Clone, PartialEq)]
pub struct Extras {
    pub pgp_fingerprint: Option<String>,
    pub xbox: Option<String>,
    pub steam: Option<String>,
    pub psn: Option<String>,
    pub certifications: Option<Vec<String>>,
    pub custom_blocks: Option<Vec<String>>,
    pub collapsible: Option<Vec<CollapsibleSection>>,
}

#[derive(Debug, Clone, PartialEq)]
pub struct CollapsibleSection {
    pub summary: String,
    pub content: String,
}

impl ProfileConfig {
    /// A record with an empty username and no section.
    pub open spec fn is_blank(self) -> bool {
        &&& self.meta.is_blank()
        &&& self.header is None
        &&& self.about is None
        &&& self.social is None
        &&& self.skills is None
        &&& self.stats is None
        &&& self.projects is None
        &&& self.blog is None
        &&& self.dynamic is None
        &&& self.layout is None
        &&& self.sponsors is None
        &&& self.extras is None
    }
}

impl Meta {
    /// An empty username and no display name.
    pub open spec fn is_blank(self) -> bool {
        self.username@.len() == 0 && self.name is None
    }
}

impl Default for ProfileConfig {
    fn default() -> (res: Self)
        ensures
            res.is_blank(),
    {
        Self {
            meta: Meta::default(),
            header: None,
            about: None,
            social: None,
            skills: None,
            stats: None,
            projects: None,
            blog: None,
            dynamic: None,
            layout: None,
            sponsors: None,
            extras: None,
        }
    }
}

impl Default for Meta {
    fn default() -> (res: Self)
        ensures
            res.is_blank(),
    {
        Self { username: String::new(), name: None }
    }
}

impl Default for Social {
    fn default() -> (res: Self)
        ensures
            res == (Social {
                github: None,
                twitter: None,
                linkedin: None,
                mastodon: None,
                bluesky: None,
                instagram: None,
                youtube: None,
                discord: None,
                devto: None,
                hashnode: None,
                medium: None,
                stackoverflow: None,
                reddit: None,
                twitch: None,
                website: None,
                email: None,
                kofi: None,
                rss: None,
            }),
    {
        Self {
            github: None,
            twitter: None,
            linkedin: None,
            mastodon: None,
            bluesky: None,
            instagram: None,
            youtube: None,
            discord: None,
            devto: None,
            hashnode: None,
            medium: None,
            stackoverflow: None,
            reddit: None,
            twitch: None,
            website: None,
            email: None,
            kofi: None,
            rss: None,
        }
    }
}

impl Default for Skills {
    fn default() -> (res: Self)
        ensures
            res == (Skills {
                languages: None,
                frameworks: None,
                tools: None,
                databases: None,
                cloud: None,
            }),
    {
        Self { languages: None, frameworks: None, tools: None, databases: None, cloud: None }
    }
}

impl Default for Projects {
    fn default() -> (res: Self)
        ensures
            res == (Projects { repos: None, display: None }),
    {
        Self { repos: None, display: None }
    }
}

impl Default for Blog {
    fn default() -> (res: Self)
        ensures
            res == (Blog { rss_urls: None, articles: None, youtube: None, newsletter: None }),
    {
        Self { rss_urls: None, articles: None, youtube: None, newsletter: None }
    }
}

impl Default for Dynamic {
    fn default() -> (res: Self)
        ensures
            res == (Dynamic {
                spotify_uid: None,
                wakatime: None,
                github_activity: None,
                stackoverflow_uid: None,
            }),
    {
        Self { spotify_uid: None, wakatime: None, github_activity: None, stackoverflow_uid: None }
    }
}

impl Default for Sponsors {
    fn default() -> (res: Self)
        ensures
            res == (Sponsors { github_sponsors: None, kofi: None, buy_me_a_coffee: None }),
    {
        Self { github_sponsors: None, kofi: None, buy_me_a_coffee: None }
    }
}

impl Default for Extras {
    fn default() -> (res: Self)
        ensures
            res == (Extras {
                pgp_fingerprint: None,
                xbox: None,
                steam: None,
                psn: None,
                certifications: None,
                custom_blocks: None,
                collapsible: None,
            }),
    {
        Self {
            pgp_fingerprint: None,
            xbox: None,
            steam: None,
            psn: None,
            certifications: None,
            custom_blocks: None,
            collapsible: None,
        }
    }
}

} // verus!
