//! The whole README: the sections of the chosen template, each rendered,
//! the empty ones left out, the rest framed and joined as the layout asks.

use crate::config::profile::{ProfileConfig, Template};
use crate::error::ConfigError;
use crate::render::sections;
use crate::render::templates::{
    is_centered, is_multi_column, sections_for_template, spec_sections_for_template,
    spec_wrap_centered, spec_wrap_multi_column, wrap_centered, wrap_multi_column, Section,
};
use crate::text::{join, join_strings, opt_str, opt_text, push_text, texts};
use vstd::prelude::*;
use vstd::slice::slice_subrange;
use vstd::string::*;

verus! {

/// The template of a profile: the configured one, or `Full`.
pub open spec fn layout_template(config: ProfileConfig) -> Template {
    match config.layout {
        Some(layout) => match layout.template {
            Some(template) => template,
            None => Template::Full,
        },
        None => Template::Full,
    }
}

/// Whether the sections are centred: the layout asks for it, or the
/// template is the developer card.
pub open spec fn layout_centered(config: ProfileConfig) -> bool {
    (match config.layout {
        Some(layout) => sections::is_on(layout.centered),
        None => false,
    }) || layout_template(config) == Template::DeveloperCard
}

/// The card theme of a profile: the one of its stats section, or `default`.
pub open spec fn card_theme(config: ProfileConfig) -> Seq<char> {
    match config.stats {
        Some(stats) => opt_text(stats.theme, "default"@),
        None => "default"@,
    }
}

/// Whether cards hide their border: the stats section says so.
pub open spec fn card_hide_border(config: ProfileConfig) -> bool {
    match config.stats {
        Some(stats) => sections::is_on(stats.hide_border),
        None => false,
    }
}

/// The text of one section of a profile; empty when the profile has no
/// such section.
pub open spec fn spec_render_section(
    section: Section,
    config: ProfileConfig,
    theme: Seq<char>,
    hide_border: bool,
) -> Seq<char> {
    match section {
        Section::Header => match config.header {
            Some(h) => sections::spec_render_header(h, config.meta),
            None => Seq::empty(),
        },
        Section::About => match config.about {
            Some(a) => sections::spec_render_about(a),
            None => Seq::empty(),
        },
        Section::Social => match config.social {
            Some(s) => sections::spec_render_social(s),
            None => Seq::empty(),
        },
        Section::Skills => match config.skills {
            Some(s) => sections::spec_render_skills(s),
            None => Seq::empty(),
        },
        Section::Stats => match config.stats {
            Some(s) => sections::spec_render_stats(s, config.meta),
            None => Seq::empty(),
        },
        Section::Projects => match config.projects {
            Some(p) => sections::spec_render_projects(p, config.meta, theme, hide_border),
            None => Seq::empty(),
        },
        Section::Blog => match config.blog {
            Some(b) => sections::spec_render_blog(b),
            None => Seq::empty(),
        },
        Section::Dynamic => match config.dynamic {
            Some(d) => sections::spec_render_dynamic(d),
            None => Seq::empty(),
        },
        Section::Sponsors => match config.sponsors {
            Some(s) => sections::spec_render_sponsors(s, config.meta),
            None => Seq::empty(),
        },
        Section::Extras => match config.extras {
            Some(e) => sections::spec_render_extras(e),
            None => Seq::empty(),
        },
    }
}

/// The texts of the given sections, in order, without the empty ones; each
/// inside a centring frame when `centered` holds.
pub open spec fn rendered_sections(
    list: Seq<Section>,
    config: ProfileConfig,
    centered: bool,
) -> Seq<Seq<char>>
    decreases list.len(),
{
    if list.len() == 0 {
        Seq::empty()
    } else {
        let before = rendered_sections(list.drop_last(), config, centered);
        let content = spec_render_section(
            list.last(),
            config,
            card_theme(config),
            card_hide_border(config),
        );
        if content.len() == 0 {
            before
        } else if centered {
            before.push(spec_wrap_centered(content))
        } else {
            before.push(content)
        }
    }
}

/// The README of a profile. With the multi-column template and more than one
/// section to show, the first half of the sections (the larger half when
/// their number is odd) stands in the left column and the rest in the right.
/// Otherwise the sections follow each other, a horizontal rule between each
/// two.
pub open spec fn spec_render(config: ProfileConfig) -> Seq<char> {
    let template = layout_template(config);
    let rendered = rendered_sections(
        spec_sections_for_template(template),
        config,
        layout_centered(config),
    );
    if template == Template::MultiColumn && rendered.len() > 1 {
        let mid = (rendered.len() + 1) as int / 2;
        spec_wrap_multi_column(
            join(rendered.take(mid), "\n\n"@),
            join(rendered.skip(mid), "\n\n"@),
        )
    } else {
        join(rendered, "\n\n---\n\n"@)
    }
}

/// Render a complete README.md from a ProfileConfig.
pub fn render(config: &ProfileConfig) -> (res: String)
    ensures
        res@ == spec_render(*config),
{
    let fallback = Template::Full;
    let template: &Template = match &config.layout {
        Some(layout) => match &layout.template {
            Some(t) => t,
            None => &fallback,
        },
        None => &fallback,
    };
    let asked_centered = match &config.layout {
        Some(layout) => match layout.centered {
            Some(c) => c,
            None => false,
        },
        None => false,
    };
    let centered: bool = asked_centered || is_centered(template);
    let ordered_sections: Vec<Section> = sections_for_template(template);

    let theme: &str = match &config.stats {
        Some(s) => opt_str(&s.theme, "default"),
        None => "default",
    };
    let hide_border: bool = match &config.stats {
        Some(s) => match s.hide_border {
            Some(h) => h,
            None => false,
        },
        None => false,
    };

    let mut rendered: Vec<String> = Vec::new();
    let mut i: usize = 0;
    while i < ordered_sections.len()
        invariant
            i <= ordered_sections@.len(),
            theme@ == card_theme(*config),
            hide_border == card_hide_border(*config),
            texts(rendered@) == rendered_sections(
                ordered_sections@.take(i as int),
                *config,
                centered,
            ),
        decreases ordered_sections@.len() - i,
    {
        proof {
            let next = ordered_sections@.take(i + 1);
            assert(next.drop_last() =~= ordered_sections@.take(i as int));
        }
        let content = render_section(&ordered_sections[i], config, theme, hide_border);
        if !content.as_str().is_empty() {
            if centered {
                push_text(&mut rendered, wrap_centered(content.as_str()));
            } else {
                push_text(&mut rendered, content);
            }
        }
        i += 1;
    }
    assert(ordered_sections@.take(ordered_sections@.len() as int) =~= ordered_sections@);

    let count = rendered.len();
    if is_multi_column(template) && count > 1 {
        let mid: usize = count - count / 2;
        let all = rendered.as_slice();
        let left_parts = slice_subrange(all, 0, mid);
        let right_parts = slice_subrange(all, mid, count);
        proof {
            assert(texts(left_parts@) =~= texts(rendered@).take(mid as int));
            assert(texts(right_parts@) =~= texts(rendered@).skip(mid as int));
        }
        let left = join_strings(left_parts, "\n\n");
        let right = join_strings(right_parts, "\n\n");
        wrap_multi_column(left.as_str(), right.as_str())
    } else {
        join_strings(rendered.as_slice(), "\n\n---\n\n")
    }
}

/// Render the README of a profile that is ready for it: a profile without
/// username is refused, every other one is rendered.
pub fn render_checked(config: &ProfileConfig) -> (res: Result<String, ConfigError>)
    ensures
        match res {
            Ok(readme) => config.meta.username@.len() > 0 && readme@ == spec_render(*config),
            Err(e) => config.meta.username@.len() == 0 && e == ConfigError::MissingUsername,
        },
{
    if config.meta.username.as_str().is_empty() {
        return Err(ConfigError::MissingUsername);
    }
    Ok(render(config))
}

/// Render one section of a profile; the empty string when the profile has
/// no such section.
pub fn render_section(section: &Section, config: &ProfileConfig, theme: &str, hide_border: bool) -> (res:
    String)
    ensures
        res@ == spec_render_section(*section, *config, theme@, hide_border),
{
    match section {
        Section::Header => match &config.header {
            Some(h) => sections::render_header(h, &config.meta),
            None => String::new(),
        },
        Section::About => match &config.about {
            Some(a) => sections::render_about(a),
            None => String::new(),
        },
        Section::Social => match &config.social {
            Some(s) => sections::render_social(s),
            None => String::new(),
        },
        Section::Skills => match &config.skills {
            Some(s) => sections::render_skills(s),
            None => String::new(),
        },
        Section::Stats => match &config.stats {
            Some(s) => sections::render_stats(s, &config.meta),
            None => String::new(),
        },
        Section::Projects => match &config.projects {
            Some(p) => sections::render_projects(p, &config.meta, theme, hide_border),
            None => String::new(),
        },
        Section::Blog => match &config.blog {
            Some(b) => sections::render_blog(b),
            None => String::new(),
        },
        Section::Dynamic => match &config.dynamic {
            Some(d) => sections::render_dynamic(d),
            None => String::new(),
        },
        Section::Sponsors => match &config.sponsors {
            Some(s) => sections::render_sponsors(s, &config.meta),
            None => String::new(),
        },
        Section::Extras => match &config.extras {
            Some(e) => sections::render_extras(e),
            None => String::new(),
        },
    }
}

} // verus!
