//! The starter file that a new user begins from.

use vstd::prelude::*;
use vstd::string::*;

verus! {

/// The text of the starter file: a `[meta]` section with a placeholder
/// username, and every other section commented out as an example.
pub const STARTER_TOML: &'static str = r#"# gh-profile-gen profile configuration
# Uncomment and fill in the sections you want in your README.

[meta]
username = "your-github-username"
# name = "Your Display Name"

# [header]
# style = "typing_svg"  # Options: typing_svg, text, banner, wave
# typing_lines = ["Hello", "World"]
# typing_font = "Fira Code"
# typing_color = "f75c7e"
# tagline = "Your tagline here"
# banner_url = "https://example.com/banner.png"

# [about]
# role = "Your Role"
# company = "Your Company"
# current_work = "project-name"
# learning = "Something new"
# reach_me = "your@email.com"
# fun_fact = "Something fun"
# pronouns = "they/them"
# location = "City, Country"
# timezone = "UTC"

# [social]
# github = "https://github.com/username"
# twitter = "https://twitter.com/username"
# linkedin = "https://linkedin.com/in/username"
# mastodon = "https://mastodon.social/@username"
# bluesky = "https://bsky.app/profile/username"
# instagram = "https://instagram.com/username"
# youtube = "https://youtube.com/@username"
# discord = "https://discord.gg/invite"
# devto = "https://dev.to/username"
# hashnode = "https://hashnode.com/@username"
# medium = "https://medium.com/@username"
# stackoverflow = "https://stackoverflow.com/users/id"
# reddit = "https://reddit.com/u/username"
# twitch = "https://twitch.tv/username"
# website = "https://yoursite.com"
# email = "your@email.com"
# kofi = "https://ko-fi.com/username"
# rss = "https://yoursite.com/feed.xml"

# [skills]
# languages = ["Rust", "Python", "TypeScript"]
# frameworks = ["Actix", "React"]
# tools = ["Docker", "Git", "Neovim"]
# databases = ["PostgreSQL", "Redis"]
# cloud = ["AWS", "Vercel"]

# [stats]
# stats_card = true
# top_langs = true
# streak = true
# contributor_stats = false
# trophies = false
# contribution_snake = false
# profile_views = true
# theme = "tokyonight"
# hide_border = false
# top_langs_layout = "compact"
# top_langs_count = 8

# [projects]
# repos = ["username/repo1", "username/repo2"]
# display = "pin_cards"  # Options: pin_cards, markdown_table

# [blog]
# rss_urls = ["https://yoursite.com/feed.xml"]
# youtube = "https://youtube.com/@username"
# newsletter = "https://yoursite.com/newsletter"
#
# [[blog.articles]]
# title = "My First Post"
# url = "https://yoursite.com/first-post"

# [dynamic]
# spotify_uid = "your-spotify-user-id"
# wakatime = true
# github_activity = true
# stackoverflow_uid = "12345"

# [layout]
# template = "full"  # Options: minimal, full, developer_card, multi_column
# dark_mode = true
# centered = false

# [sponsors]
# github_sponsors = true
# kofi = "https://ko-fi.com/username"
# buy_me_a_coffee = "https://buymeacoffee.com/username"

# [extras]
# pgp_fingerprint = "ABCD 1234 EFGH 5678"
# xbox = "YourGamertag"
# steam = "YourSteamID"
# psn = "YourPSNID"
# certifications = ["AWS Certified Developer"]
# custom_blocks = ["Any raw markdown you want inserted"]
#
# [[extras.collapsible]]
# summary = "Click to expand"
# content = "Hidden content here"
"#;

/// Generate a starter TOML string with all sections shown as examples.
pub fn generate_starter_toml() -> (res: String)
    ensures
        res@ == STARTER_TOML@,
{
    String::from_str(STARTER_TOML)
}

/// Whether the starter file may be written to a place: a file that is
/// already there is only replaced when the caller insists.
pub fn starter_may_be_written(already_there: bool, force: bool) -> (res: bool)
    ensures
        res == (!already_there || force),
{
    !already_there || force
}

} // verus!
