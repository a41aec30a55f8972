//! The page document: the fixed shell, the usage figures where there are
//! any, the address of the bundle, and the list of polyfills.

use crate::catalog::{CatalogRenderModel, EntryModel, RenderEntry};
use crate::decimal::decimal_digits;
use crate::magnitude::{humanize, humanized};
use crate::markup::{
    decimal_size_text, format_decimal_size, html_escaped, push_escaped, push_number,
};
use crate::template::{
    ALIAS_CLOSE, BANDWIDTH_CAPTION, BODY_OPEN, BUNDLE_PATH, CAPTION_END, DOCUMENT_END,
    DOCUMENT_HEAD, ENTRY_BOX, ENTRY_LABEL, ENTRY_NAME, ENTRY_OPEN, FEATURE_CLOSE, FIGURES_CLOSE,
    FIGURE_CLOSE, FIGURE_OPEN, FORM_FIELDS, HEADER, MAIN_CLOSE, MAIN_OPEN, MEMBERS_OPEN,
    MEMBER_CLOSE, MEMBER_OPEN, NAV_CLOSE, NAV_LINKS, REPOSITORY_MARK, REQUESTS_CAPTION,
    SCRIPT_BREAK, SECTION_BREAK, SPONSOR_MARK_DIAL, SPONSOR_MARK_LETTERS, STATS_CLOSE, STATS_OPEN,
    VERSION_SELECT,
};
use vstd::prelude::*;
use vstd::string::*;

verus! {

/// Usage over the last days: requests served and bytes sent.
#[derive(Clone, Copy, Debug, PartialEq, Eq)]
pub struct StatsSnapshot {
    pub request_count: u64,
    pub bandwidth_bytes: u64,
    pub window_days: u32,
}

/// What one page is made from.
#[derive(Clone, Debug, PartialEq, Eq)]
pub struct PageContext {
    pub base_url: String,
    pub stats: Option<StatsSnapshot>,
    pub catalog: CatalogRenderModel,
}

/// A page context as plain text.
pub struct PageContextModel {
    pub base_url: Seq<char>,
    pub stats: Option<StatsSnapshot>,
    pub catalog: Seq<EntryModel>,
}

impl View for PageContext {
    type V = PageContextModel;

    open spec fn view(&self) -> PageContextModel {
        PageContextModel { base_url: self.base_url@, stats: self.stats, catalog: self.catalog@ }
    }
}

/// The style sheet and the two scripts that every page carries as they are.
#[derive(Clone, Debug, PartialEq, Eq)]
pub struct PageAssets {
    pub style: String,
    pub script: String,
    pub builder_script: String,
}

/// The assets as plain text.
pub struct PageAssetsModel {
    pub style: Seq<char>,
    pub script: Seq<char>,
    pub builder_script: Seq<char>,
}

impl View for PageAssets {
    type V = PageAssetsModel;

    open spec fn view(&self) -> PageAssetsModel {
        PageAssetsModel {
            style: self.style@,
            script: self.script@,
            builder_script: self.builder_script@,
        }
    }
}

/// The head of the document with the style sheet, and the navigation bar.
pub open spec fn shell_open_markup(style: Seq<char>) -> Seq<char> {
    DOCUMENT_HEAD@ + style + BODY_OPEN@ + NAV_LINKS@ + REPOSITORY_MARK@ + NAV_CLOSE@
}

/// One headline figure with its caption and the number of days.
pub open spec fn figure_markup(figure: Seq<char>, caption: Seq<char>, days: u32) -> Seq<char> {
    FIGURE_OPEN@ + html_escaped(figure) + FIGURE_CLOSE@ + caption + decimal_digits(days as nat)
        + CAPTION_END@
}

/// The statistics block: the two figures and the acknowledgment.
pub open spec fn stats_markup(requests: Seq<char>, bandwidth: Seq<char>, days: u32) -> Seq<char> {
    STATS_OPEN@ + figure_markup(requests, REQUESTS_CAPTION@, days) + SECTION_BREAK@
        + figure_markup(bandwidth, BANDWIDTH_CAPTION@, days) + FIGURES_CLOSE@
        + SPONSOR_MARK_LETTERS@ + SPONSOR_MARK_DIAL@ + STATS_CLOSE@
}

/// A labelled checkbox of the given name.
pub open spec fn checkbox_markup(name: Seq<char>) -> Seq<char> {
    ENTRY_OPEN@ + html_escaped(name) + ENTRY_BOX@ + html_escaped(name) + ENTRY_NAME@
        + html_escaped(name) + ENTRY_LABEL@ + html_escaped(name)
}

/// The members of an alias, one list item each.
pub open spec fn members_markup(members: Seq<Seq<char>>) -> Seq<char>
    decreases members.len(),
{
    if members.len() == 0 {
        Seq::empty()
    } else {
        members_markup(members.drop_last()) + MEMBER_OPEN@ + html_escaped(members.last())
            + MEMBER_CLOSE@
    }
}

/// One line of the list: a checkbox, and for an alias the disclosure of
/// its members.
pub open spec fn entry_markup(line: EntryModel) -> Seq<char> {
    match line {
        EntryModel::Alias { name, members } => checkbox_markup(name) + MEMBERS_OPEN@
            + members_markup(members) + ALIAS_CLOSE@,
        EntryModel::Feature { name } => checkbox_markup(name) + FEATURE_CLOSE@,
    }
}

/// The lines of the list in their order.
pub open spec fn entries_markup(lines: Seq<EntryModel>) -> Seq<char>
    decreases lines.len(),
{
    if lines.len() == 0 {
        Seq::empty()
    } else {
        entries_markup(lines.drop_last()) + entry_markup(lines.last())
    }
}

/// The form: the address of the bundle below the base address as given,
/// the version selector, the fields, and the list.
pub open spec fn form_markup(base_url: Seq<char>, lines: Seq<EntryModel>) -> Seq<char> {
    MAIN_OPEN@ + html_escaped(base_url) + BUNDLE_PATH@ + VERSION_SELECT@ + FORM_FIELDS@
        + entries_markup(lines) + MAIN_CLOSE@
}

/// The statistics block of a page: none without statistics; with them the
/// approximated request count and the given bandwidth text.
pub open spec fn stats_block(stats: Option<StatsSnapshot>, bandwidth: Seq<char>) -> Seq<char> {
    match stats {
        Some(snapshot) => stats_markup(
            humanized(snapshot.request_count),
            bandwidth,
            snapshot.window_days,
        ),
        None => Seq::empty(),
    }
}

/// The whole document for a context, the text that shows the bandwidth,
/// and the assets.
pub open spec fn page_text(
    ctx: PageContextModel,
    bandwidth: Seq<char>,
    assets: PageAssetsModel,
) -> Seq<char> {
    shell_open_markup(assets.style) + HEADER@ + stats_block(ctx.stats, bandwidth) + form_markup(
        ctx.base_url,
        ctx.catalog,
    ) + assets.builder_script + SCRIPT_BREAK@ + assets.script + DOCUMENT_END@
}

/// The text that shows the bandwidth of a snapshot; without statistics
/// there is none to show.
pub open spec fn bandwidth_text(stats: Option<StatsSnapshot>) -> Seq<char> {
    match stats {
        Some(snapshot) => decimal_size_text(snapshot.bandwidth_bytes),
        None => Seq::empty(),
    }
}

fn push_figure(page: &mut String, figure: &str, caption: &str, days: u32)
    ensures
        final(page)@ == old(page)@ + figure_markup(figure@, caption@, days),
{
    page.append(FIGURE_OPEN);
    push_escaped(page, figure);
    page.append(FIGURE_CLOSE);
    page.append(caption);
    push_number(page, days);
    page.append(CAPTION_END);
}

fn push_stats(page: &mut String, requests: &str, bandwidth: &str, days: u32)
    ensures
        final(page)@ == old(page)@ + stats_markup(requests@, bandwidth@, days),
{
    page.append(STATS_OPEN);
    push_figure(page, requests, REQUESTS_CAPTION, days);
    page.append(SECTION_BREAK);
    push_figure(page, bandwidth, BANDWIDTH_CAPTION, days);
    page.append(FIGURES_CLOSE);
    page.append(SPONSOR_MARK_LETTERS);
    page.append(SPONSOR_MARK_DIAL);
    page.append(STATS_CLOSE);
}

fn push_checkbox(page: &mut String, name: &str)
    ensures
        final(page)@ == old(page)@ + checkbox_markup(name@),
{
    page.append(ENTRY_OPEN);
    push_escaped(page, name);
    page.append(ENTRY_BOX);
    push_escaped(page, name);
    page.append(ENTRY_NAME);
    push_escaped(page, name);
    page.append(ENTRY_LABEL);
    push_escaped(page, name);
}

fn push_members(page: &mut String, members: &Vec<String>)
    ensures
        final(page)@ == old(page)@ + members_markup(members.deep_view()),
{
    let ghost start = page@;
    let ghost all = members.deep_view();
    let mut i: usize = 0;
    assert(all.take(0) =~= Seq::<Seq<char>>::empty());
    while i < members.len()
        invariant
            i <= members@.len(),
            all == members.deep_view(),
            page@ == start + members_markup(all.take(i as int)),
        decreases members@.len() - i,
    {
        page.append(MEMBER_OPEN);
        push_escaped(page, members[i].as_str());
        page.append(MEMBER_CLOSE);
        proof {
            let done = all.take(i + 1);
            assert(done.drop_last() =~= all.take(i as int));
            assert(done.last() == members@[i as int]@);
        }
        i = i + 1;
    }
    assert(all.take(members@.len() as int) =~= all);
}

fn push_entry(page: &mut String, entry: &RenderEntry)
    ensures
        final(page)@ == old(page)@ + entry_markup(entry@),
{
    match entry {
        RenderEntry::Alias { name, members } => {
            push_checkbox(page, name.as_str());
            page.append(MEMBERS_OPEN);
            push_members(page, members);
            page.append(ALIAS_CLOSE);
        },
        RenderEntry::Feature { name } => {
            push_checkbox(page, name.as_str());
            page.append(FEATURE_CLOSE);
        },
    }
}

fn push_entries(page: &mut String, catalog: &CatalogRenderModel)
    ensures
        final(page)@ == old(page)@ + entries_markup(catalog@),
{
    let ghost start = page@;
    let ghost lines = catalog@;
    let mut i: usize = 0;
    assert(lines.take(0) =~= Seq::<EntryModel>::empty());
    while i < catalog.entries.len()
        invariant
            i <= catalog.entries@.len(),
            lines == catalog@,
            page@ == start + entries_markup(lines.take(i as int)),
        decreases catalog.entries@.len() - i,
    {
        push_entry(page, &catalog.entries[i]);
        proof {
            let done = lines.take(i + 1);
            assert(done.drop_last() =~= lines.take(i as int));
            assert(done.last() == catalog.entries@[i as int]@);
        }
        i = i + 1;
    }
    assert(lines.take(catalog.entries@.len() as int) =~= lines);
}

/// Writes the page for a context, with the given text in the place of the
/// bandwidth: the shell and the introduction always; the statistics block
/// only where the context has statistics, with the request count
/// approximated; the bundle's address below the base address as it was
/// given; and the list in the order of the catalog.
pub fn render_page(ctx: &PageContext, bandwidth: &str, assets: &PageAssets) -> (page: String)
    ensures
        page@ == page_text(ctx@, bandwidth@, assets@),
{
    let mut page = String::new();
    page.append(DOCUMENT_HEAD);
    page.append(assets.style.as_str());
    page.append(BODY_OPEN);
    page.append(NAV_LINKS);
    page.append(REPOSITORY_MARK);
    page.append(NAV_CLOSE);
    assert(page@ == shell_open_markup(assets@.style));
    page.append(HEADER);
    match ctx.stats {
        Some(snapshot) => {
            let requests = humanize(snapshot.request_count);
            push_stats(&mut page, requests.as_str(), bandwidth, snapshot.window_days);
        },
        None => {},
    }
    assert(page@ == shell_open_markup(assets@.style) + HEADER@ + stats_block(ctx@.stats, bandwidth@));
    let ghost front = page@;
    page.append(MAIN_OPEN);
    push_escaped(&mut page, ctx.base_url.as_str());
    page.append(BUNDLE_PATH);
    page.append(VERSION_SELECT);
    page.append(FORM_FIELDS);
    push_entries(&mut page, &ctx.catalog);
    page.append(MAIN_CLOSE);
    assert(page@ == front + form_markup(ctx@.base_url, ctx@.catalog));
    page.append(assets.builder_script.as_str());
    page.append(SCRIPT_BREAK);
    page.append(assets.script.as_str());
    page.append(DOCUMENT_END);
    page
}

/// Writes the page for a context: as `render_page` does, with the
/// bandwidth shown in decimal units.
pub fn compose(ctx: &PageContext, assets: &PageAssets) -> (page: String)
    ensures
        page@ == page_text(ctx@, bandwidth_text(ctx@.stats), assets@),
{
    match ctx.stats {
        Some(snapshot) => {
            let bandwidth = format_decimal_size(snapshot.bandwidth_bytes);
            render_page(ctx, bandwidth.as_str(), assets)
        },
        None => {
            let page = render_page(ctx, "", assets);
            page
        },
    }
}

} // verus!
