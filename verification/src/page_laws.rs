//! The captions of the statistics block in the page: none without
//! statistics, each once with them, followed by the number of days.

use crate::catalog::EntryModel;
use crate::decimal::decimal_digits;
use crate::magnitude::humanized;
use crate::markup::html_escaped;
use crate::page::{
    checkbox_markup, entries_markup, entry_markup, figure_markup, form_markup, members_markup,
    page_text, shell_open_markup, stats_block, stats_markup, PageAssetsModel, PageContextModel,
};
use crate::phrases::{
    captioned_once, fenced, free_of, lemma_captioned_then_free, lemma_free_if_shorter,
    lemma_free_joined, lemma_free_then_captioned, lemma_free_then_once, lemma_occurs_shifted,
    lemma_once_then_free, lemma_stats_phrase_words, lemma_unmarked_free, occurs_at,
    occurs_only_at, stats_phrase, word_phrase, BANDWIDTH_PHRASE, REQUESTS_PHRASE,
};
use crate::template::{
    ALIAS_CLOSE, BANDWIDTH_CAPTION, BODY_OPEN, BUNDLE_PATH, CAPTION_END, DOCUMENT_END,
    DOCUMENT_HEAD, ENTRY_BOX, ENTRY_LABEL, ENTRY_NAME, ENTRY_OPEN, FEATURE_CLOSE,
    FIGURES_CLOSE, FIGURE_CLOSE, FIGURE_OPEN, FORM_FIELDS, HEADER, MAIN_CLOSE, MAIN_OPEN,
    MEMBERS_OPEN, MEMBER_CLOSE, MEMBER_OPEN, NAV_CLOSE, NAV_LINKS, REPOSITORY_MARK,
    REQUESTS_CAPTION, SCRIPT_BREAK, SECTION_BREAK, SPONSOR_MARK_DIAL, SPONSOR_MARK_LETTERS,
    STATS_CLOSE, STATS_OPEN, VERSION_SELECT,
};
use crate::template_laws::{
    lemma_bandwidth_caption_phrases, lemma_caption_end_plain, lemma_requests_caption_phrases,
    lemma_alias_close_plain, lemma_body_open_plain, lemma_bundle_path_plain,
    lemma_document_end_plain, lemma_document_head_plain, lemma_entry_box_plain,
    lemma_entry_label_plain, lemma_entry_name_plain, lemma_entry_open_plain,
    lemma_feature_close_plain, lemma_figure_close_plain, lemma_figure_open_plain,
    lemma_figures_close_plain, lemma_form_fields_plain, lemma_header_plain,
    lemma_main_close_plain, lemma_main_open_plain, lemma_member_close_plain,
    lemma_member_open_plain, lemma_members_open_plain, lemma_nav_close_plain,
    lemma_nav_links_plain, lemma_repository_mark_plain, lemma_script_break_plain,
    lemma_section_break_plain, lemma_sponsor_mark_dial_plain, lemma_sponsor_mark_letters_plain,
    lemma_stats_close_plain, lemma_stats_open_plain, lemma_version_select_plain,
};
use crate::text_laws::{lemma_escaped_free, lemma_humanized_free, lemma_number_free};
use vstd::prelude::*;
use vstd::string::*;

verus! {

/// A text that holds the phrase nowhere and keeps phrases of words apart on
/// both sides.
pub open spec fn sound(text: Seq<char>, phrase: Seq<char>) -> bool {
    fenced(text) && free_of(text, phrase)
}

/// Two sound texts make a sound text.
pub(crate) proof fn lemma_joined_sound(left: Seq<char>, right: Seq<char>, phrase: Seq<char>)
    requires
        word_phrase(phrase),
        sound(left, phrase),
        sound(right, phrase),
    ensures
        sound(left + right, phrase),
{
    lemma_free_joined(left, right, phrase);
}

/// A text free of the phrase between two sound texts makes a sound text.
pub(crate) proof fn lemma_wrapped_sound(
    left: Seq<char>,
    inner: Seq<char>,
    right: Seq<char>,
    phrase: Seq<char>,
)
    requires
        word_phrase(phrase),
        sound(left, phrase),
        free_of(inner, phrase),
        sound(right, phrase),
    ensures
        sound(left + inner + right, phrase),
{
    lemma_free_joined(left, inner, phrase);
    assert((left + inner).len() > 0 && (left + inner)[0] == left[0]);
    lemma_free_joined(left + inner, right, phrase);
}

/// The fixed markup, but for the captions, is sound for both captions.
pub(crate) proof fn lemma_fixed_markup_sound(phrase: Seq<char>)
    requires
        stats_phrase(phrase),
    ensures
        sound(DOCUMENT_HEAD@, phrase),
        sound(BODY_OPEN@, phrase),
        sound(NAV_LINKS@, phrase),
        sound(REPOSITORY_MARK@, phrase),
        sound(NAV_CLOSE@, phrase),
        sound(HEADER@, phrase),
        sound(STATS_OPEN@, phrase),
        sound(FIGURE_OPEN@, phrase),
        sound(FIGURE_CLOSE@, phrase),
        sound(SECTION_BREAK@, phrase),
        sound(FIGURES_CLOSE@, phrase),
        sound(SPONSOR_MARK_LETTERS@, phrase),
        sound(SPONSOR_MARK_DIAL@, phrase),
        sound(STATS_CLOSE@, phrase),
        sound(MAIN_OPEN@, phrase),
        sound(BUNDLE_PATH@, phrase),
        sound(VERSION_SELECT@, phrase),
        sound(FORM_FIELDS@, phrase),
        sound(ENTRY_OPEN@, phrase),
        sound(ENTRY_BOX@, phrase),
        sound(ENTRY_NAME@, phrase),
        sound(ENTRY_LABEL@, phrase),
        sound(FEATURE_CLOSE@, phrase),
        sound(MEMBERS_OPEN@, phrase),
        sound(MEMBER_OPEN@, phrase),
        sound(MEMBER_CLOSE@, phrase),
        sound(ALIAS_CLOSE@, phrase),
        sound(MAIN_CLOSE@, phrase),
        sound(SCRIPT_BREAK@, phrase),
        sound(DOCUMENT_END@, phrase),
{
    lemma_document_head_plain();
    lemma_unmarked_free(DOCUMENT_HEAD@, phrase);
    lemma_body_open_plain();
    lemma_unmarked_free(BODY_OPEN@, phrase);
    lemma_nav_links_plain();
    lemma_unmarked_free(NAV_LINKS@, phrase);
    lemma_repository_mark_plain();
    lemma_unmarked_free(REPOSITORY_MARK@, phrase);
    lemma_nav_close_plain();
    lemma_unmarked_free(NAV_CLOSE@, phrase);
    lemma_header_plain();
    lemma_unmarked_free(HEADER@, phrase);
    lemma_stats_open_plain();
    lemma_unmarked_free(STATS_OPEN@, phrase);
    lemma_figure_open_plain();
    lemma_unmarked_free(FIGURE_OPEN@, phrase);
    lemma_figure_close_plain();
    lemma_unmarked_free(FIGURE_CLOSE@, phrase);
    lemma_section_break_plain();
    lemma_unmarked_free(SECTION_BREAK@, phrase);
    lemma_figures_close_plain();
    lemma_unmarked_free(FIGURES_CLOSE@, phrase);
    lemma_sponsor_mark_letters_plain();
    lemma_unmarked_free(SPONSOR_MARK_LETTERS@, phrase);
    lemma_sponsor_mark_dial_plain();
    lemma_unmarked_free(SPONSOR_MARK_DIAL@, phrase);
    lemma_stats_close_plain();
    lemma_unmarked_free(STATS_CLOSE@, phrase);
    lemma_main_open_plain();
    lemma_unmarked_free(MAIN_OPEN@, phrase);
    lemma_bundle_path_plain();
    lemma_unmarked_free(BUNDLE_PATH@, phrase);
    lemma_version_select_plain();
    lemma_unmarked_free(VERSION_SELECT@, phrase);
    lemma_form_fields_plain();
    lemma_unmarked_free(FORM_FIELDS@, phrase);
    lemma_entry_open_plain();
    lemma_unmarked_free(ENTRY_OPEN@, phrase);
    lemma_entry_box_plain();
    lemma_unmarked_free(ENTRY_BOX@, phrase);
    lemma_entry_name_plain();
    lemma_unmarked_free(ENTRY_NAME@, phrase);
    lemma_entry_label_plain();
    lemma_unmarked_free(ENTRY_LABEL@, phrase);
    lemma_feature_close_plain();
    lemma_unmarked_free(FEATURE_CLOSE@, phrase);
    lemma_members_open_plain();
    lemma_unmarked_free(MEMBERS_OPEN@, phrase);
    lemma_member_open_plain();
    lemma_unmarked_free(MEMBER_OPEN@, phrase);
    lemma_member_close_plain();
    lemma_unmarked_free(MEMBER_CLOSE@, phrase);
    lemma_alias_close_plain();
    lemma_unmarked_free(ALIAS_CLOSE@, phrase);
    lemma_main_close_plain();
    lemma_unmarked_free(MAIN_CLOSE@, phrase);
    lemma_script_break_plain();
    lemma_unmarked_free(SCRIPT_BREAK@, phrase);
    lemma_document_end_plain();
    lemma_unmarked_free(DOCUMENT_END@, phrase);
}

/// A text that holds the phrase nowhere and is empty or fenced.
pub open spec fn loose(text: Seq<char>, phrase: Seq<char>) -> bool {
    free_of(text, phrase) && (text.len() == 0 || fenced(text))
}

/// The head of the document and the navigation bar are sound where the
/// style sheet is free of the caption.
pub(crate) proof fn lemma_shell_open_sound(style: Seq<char>, phrase: Seq<char>)
    requires
        stats_phrase(phrase),
        free_of(style, phrase),
    ensures
        sound(shell_open_markup(style), phrase),
{
    lemma_stats_phrase_words(phrase);
    lemma_fixed_markup_sound(phrase);
    let a = DOCUMENT_HEAD@ + style + BODY_OPEN@;
    lemma_wrapped_sound(DOCUMENT_HEAD@, style, BODY_OPEN@, phrase);
    lemma_joined_sound(a, NAV_LINKS@, phrase);
    lemma_joined_sound(a + NAV_LINKS@, REPOSITORY_MARK@, phrase);
    lemma_joined_sound(a + NAV_LINKS@ + REPOSITORY_MARK@, NAV_CLOSE@, phrase);
}

/// The members of an alias are written without the caption where none of
/// them holds it.
pub(crate) proof fn lemma_members_loose(members: Seq<Seq<char>>, phrase: Seq<char>)
    requires
        stats_phrase(phrase),
        forall|i: int| 0 <= i < members.len() ==> free_of(#[trigger] members[i], phrase),
    ensures
        loose(members_markup(members), phrase),
    decreases members.len(),
{
    lemma_stats_phrase_words(phrase);
    lemma_fixed_markup_sound(phrase);
    if members.len() > 0 {
        let front = members.drop_last();
        assert forall|i: int| 0 <= i < front.len() implies free_of(#[trigger] front[i], phrase) by {
            assert(front[i] == members[i]);
        }
        lemma_members_loose(front, phrase);
        let before = members_markup(front);
        let name = html_escaped(members.last());
        lemma_escaped_free(members.last(), phrase);
        let item = MEMBER_OPEN@ + name + MEMBER_CLOSE@;
        lemma_wrapped_sound(MEMBER_OPEN@, name, MEMBER_CLOSE@, phrase);
        assert(members_markup(members) =~= before + item);
        if before.len() > 0 {
            lemma_joined_sound(before, item, phrase);
        } else {
            assert(before + item =~= item);
        }
    }
}

/// A line of the list is sound where neither its name nor a member holds
/// the caption.
pub(crate) proof fn lemma_entry_sound(line: EntryModel, phrase: Seq<char>)
    requires
        stats_phrase(phrase),
        entry_free_of(line, phrase),
    ensures
        sound(entry_markup(line), phrase),
{
    lemma_stats_phrase_words(phrase);
    lemma_fixed_markup_sound(phrase);
    let name = html_escaped(line.label());
    lemma_escaped_free(line.label(), phrase);
    let a = ENTRY_OPEN@ + name + ENTRY_BOX@;
    lemma_wrapped_sound(ENTRY_OPEN@, name, ENTRY_BOX@, phrase);
    let b = a + name + ENTRY_NAME@;
    lemma_wrapped_sound(a, name, ENTRY_NAME@, phrase);
    let c = b + name + ENTRY_LABEL@;
    lemma_wrapped_sound(b, name, ENTRY_LABEL@, phrase);
    assert(checkbox_markup(line.label()) == c + name);
    match line {
        EntryModel::Alias { name: _, members } => {
            let d = c + name + MEMBERS_OPEN@;
            lemma_wrapped_sound(c, name, MEMBERS_OPEN@, phrase);
            lemma_members_loose(members, phrase);
            lemma_wrapped_sound(d, members_markup(members), ALIAS_CLOSE@, phrase);
        },
        EntryModel::Feature { name: _ } => {
            lemma_wrapped_sound(c, name, FEATURE_CLOSE@, phrase);
        },
    }
}

/// Neither the name of the line nor one of its members holds the phrase.
pub open spec fn entry_free_of(line: EntryModel, phrase: Seq<char>) -> bool {
    &&& free_of(line.label(), phrase)
    &&& line matches EntryModel::Alias { members, .. } ==> forall|i: int|
        0 <= i < members.len() ==> free_of(#[trigger] members[i], phrase)
}

/// The list is written without the caption where no line holds it.
pub(crate) proof fn lemma_entries_loose(lines: Seq<EntryModel>, phrase: Seq<char>)
    requires
        stats_phrase(phrase),
        forall|i: int| 0 <= i < lines.len() ==> entry_free_of(#[trigger] lines[i], phrase),
    ensures
        loose(entries_markup(lines), phrase),
    decreases lines.len(),
{
    lemma_stats_phrase_words(phrase);
    if lines.len() > 0 {
        let front = lines.drop_last();
        assert forall|i: int| 0 <= i < front.len() implies entry_free_of(
            #[trigger] front[i],
            phrase,
        ) by {
            assert(front[i] == lines[i]);
        }
        lemma_entries_loose(front, phrase);
        let before = entries_markup(front);
        let item = entry_markup(lines.last());
        lemma_entry_sound(lines.last(), phrase);
        if before.len() > 0 {
            lemma_joined_sound(before, item, phrase);
        } else {
            assert(before + item =~= item);
        }
    }
}

/// The form is sound where neither the base address nor a line of the list
/// holds the caption.
pub(crate) proof fn lemma_form_sound(base_url: Seq<char>, lines: Seq<EntryModel>, phrase: Seq<char>)
    requires
        stats_phrase(phrase),
        free_of(base_url, phrase),
        forall|i: int| 0 <= i < lines.len() ==> entry_free_of(#[trigger] lines[i], phrase),
    ensures
        sound(form_markup(base_url, lines), phrase),
{
    lemma_stats_phrase_words(phrase);
    lemma_fixed_markup_sound(phrase);
    lemma_escaped_free(base_url, phrase);
    let a = MAIN_OPEN@ + html_escaped(base_url) + BUNDLE_PATH@;
    lemma_wrapped_sound(MAIN_OPEN@, html_escaped(base_url), BUNDLE_PATH@, phrase);
    lemma_joined_sound(a, VERSION_SELECT@, phrase);
    let b = a + VERSION_SELECT@ + FORM_FIELDS@;
    lemma_joined_sound(a + VERSION_SELECT@, FORM_FIELDS@, phrase);
    lemma_entries_loose(lines, phrase);
    lemma_wrapped_sound(b, entries_markup(lines), MAIN_CLOSE@, phrase);
}

/// A caption with the number of days set in.
pub open spec fn caption_line(caption: Seq<char>, days: u32) -> Seq<char> {
    caption + decimal_digits(days as nat) + CAPTION_END@
}

/// A figure is sound where neither its text nor its caption holds the
/// phrase.
pub(crate) proof fn lemma_figure_sound(
    figure: Seq<char>,
    caption: Seq<char>,
    days: u32,
    phrase: Seq<char>,
)
    requires
        stats_phrase(phrase),
        free_of(figure, phrase),
        free_of(caption, phrase),
    ensures
        sound(figure_markup(figure, caption, days), phrase),
{
    lemma_stats_phrase_words(phrase);
    lemma_fixed_markup_sound(phrase);
    lemma_escaped_free(figure, phrase);
    lemma_number_free(days as nat, phrase);
    lemma_caption_end_plain();
    lemma_free_if_shorter(CAPTION_END@, phrase);
    let digits = decimal_digits(days as nat);
    let a = FIGURE_OPEN@ + html_escaped(figure) + FIGURE_CLOSE@;
    lemma_wrapped_sound(FIGURE_OPEN@, html_escaped(figure), FIGURE_CLOSE@, phrase);
    lemma_free_joined(a, caption, phrase);
    lemma_free_joined(a + caption, digits, phrase);
    assert((a + caption + digits).last() == digits.last());
    lemma_free_joined(a + caption + digits, CAPTION_END@, phrase);
    assert(figure_markup(figure, caption, days)[0] == a[0]);
}

/// A figure whose caption begins with the phrase, and holds it nowhere
/// else, holds the phrase once, at the beginning of its caption's line.
pub(crate) proof fn lemma_figure_captioned(
    figure: Seq<char>,
    caption: Seq<char>,
    days: u32,
    phrase: Seq<char>,
)
    requires
        stats_phrase(phrase),
        free_of(figure, phrase),
        occurs_only_at(caption, phrase, 0),
    ensures
        fenced(figure_markup(figure, caption, days)),
        captioned_once(figure_markup(figure, caption, days), phrase, caption_line(caption, days)),
{
    lemma_stats_phrase_words(phrase);
    lemma_fixed_markup_sound(phrase);
    lemma_escaped_free(figure, phrase);
    lemma_number_free(days as nat, phrase);
    lemma_caption_end_plain();
    lemma_free_if_shorter(CAPTION_END@, phrase);
    let digits = decimal_digits(days as nat);
    let line = caption_line(caption, days);
    let a = FIGURE_OPEN@ + html_escaped(figure) + FIGURE_CLOSE@;
    lemma_wrapped_sound(FIGURE_OPEN@, html_escaped(figure), FIGURE_CLOSE@, phrase);
    lemma_free_then_once(a, caption, phrase, 0);
    lemma_once_then_free(a + caption, digits, phrase, a.len() as int);
    assert((a + caption + digits).last() == digits.last());
    lemma_once_then_free(a + caption + digits, CAPTION_END@, phrase, a.len() as int);
    let whole = figure_markup(figure, caption, days);
    assert(whole[0] == a[0]);
    assert(whole =~= a + line);
    assert(line.subrange(0, line.len() as int) =~= line);
    lemma_occurs_shifted(a, line, line, 0);
    assert(occurs_at(whole, line, a.len() as int) && occurs_only_at(whole, phrase, a.len() as int));
}

/// The statistics block is fenced and holds the phrase of the request
/// count once, at the beginning of that caption's line, where neither figure
/// holds the phrase.
pub(crate) proof fn lemma_stats_requests_captioned(requests: Seq<char>, bandwidth: Seq<char>, days: u32)
    requires
        free_of(requests, REQUESTS_PHRASE@),
        free_of(bandwidth, REQUESTS_PHRASE@),
    ensures
        fenced(stats_markup(requests, bandwidth, days)),
        captioned_once(
            stats_markup(requests, bandwidth, days),
            REQUESTS_PHRASE@,
            caption_line(REQUESTS_CAPTION@, days),
        ),
{
    let phrase = REQUESTS_PHRASE@;
    let line = caption_line(REQUESTS_CAPTION@, days);
    let first = figure_markup(requests, REQUESTS_CAPTION@, days);
    let second = figure_markup(bandwidth, BANDWIDTH_CAPTION@, days);
    let a = STATS_OPEN@ + first;
    let b = a + SECTION_BREAK@;
    let c = b + second;
    let d = c + FIGURES_CLOSE@;
    let e = d + SPONSOR_MARK_LETTERS@;
    let f = e + SPONSOR_MARK_DIAL@;
    let whole = f + STATS_CLOSE@;
    assert(whole == stats_markup(requests, bandwidth, days));
    lemma_requests_caption_phrases();
    lemma_bandwidth_caption_phrases();
    lemma_stats_phrase_words(phrase);
    lemma_fixed_markup_sound(phrase);
    assert(whole[0] == STATS_OPEN@[0] && whole.last() == STATS_CLOSE@.last());
    lemma_figure_captioned(requests, REQUESTS_CAPTION@, days, phrase);
    lemma_figure_sound(bandwidth, BANDWIDTH_CAPTION@, days, phrase);
    lemma_free_then_captioned(STATS_OPEN@, first, phrase, line);
    lemma_captioned_then_free(a, SECTION_BREAK@, phrase, line);
    lemma_captioned_then_free(b, second, phrase, line);
    lemma_captioned_then_free(c, FIGURES_CLOSE@, phrase, line);
    lemma_captioned_then_free(d, SPONSOR_MARK_LETTERS@, phrase, line);
    lemma_captioned_then_free(e, SPONSOR_MARK_DIAL@, phrase, line);
    lemma_captioned_then_free(f, STATS_CLOSE@, phrase, line);
}

/// The statistics block is fenced and holds the phrase of the bandwidth
/// once, at the beginning of that caption's line, where neither figure holds
/// the phrase.
pub(crate) proof fn lemma_stats_bandwidth_captioned(requests: Seq<char>, bandwidth: Seq<char>, days: u32)
    requires
        free_of(requests, BANDWIDTH_PHRASE@),
        free_of(bandwidth, BANDWIDTH_PHRASE@),
    ensures
        fenced(stats_markup(requests, bandwidth, days)),
        captioned_once(
            stats_markup(requests, bandwidth, days),
            BANDWIDTH_PHRASE@,
            caption_line(BANDWIDTH_CAPTION@, days),
        ),
{
    let phrase = BANDWIDTH_PHRASE@;
    let line = caption_line(BANDWIDTH_CAPTION@, days);
    let first = figure_markup(requests, REQUESTS_CAPTION@, days);
    let second = figure_markup(bandwidth, BANDWIDTH_CAPTION@, days);
    let a = STATS_OPEN@ + first;
    let b = a + SECTION_BREAK@;
    let c = b + second;
    let d = c + FIGURES_CLOSE@;
    let e = d + SPONSOR_MARK_LETTERS@;
    let f = e + SPONSOR_MARK_DIAL@;
    let whole = f + STATS_CLOSE@;
    assert(whole == stats_markup(requests, bandwidth, days));
    lemma_requests_caption_phrases();
    lemma_bandwidth_caption_phrases();
    lemma_stats_phrase_words(phrase);
    lemma_fixed_markup_sound(phrase);
    assert(whole[0] == STATS_OPEN@[0] && whole.last() == STATS_CLOSE@.last());
    lemma_figure_sound(requests, REQUESTS_CAPTION@, days, phrase);
    lemma_figure_captioned(bandwidth, BANDWIDTH_CAPTION@, days, phrase);
    lemma_joined_sound(STATS_OPEN@, first, phrase);
    lemma_joined_sound(a, SECTION_BREAK@, phrase);
    lemma_free_then_captioned(b, second, phrase, line);
    lemma_captioned_then_free(c, FIGURES_CLOSE@, phrase, line);
    lemma_captioned_then_free(d, SPONSOR_MARK_LETTERS@, phrase, line);
    lemma_captioned_then_free(e, SPONSOR_MARK_DIAL@, phrase, line);
    lemma_captioned_then_free(f, STATS_CLOSE@, phrase, line);
}

/// Nothing that is set into the page holds the phrase: not the base
/// address, a line of the list, an asset, or, where there are statistics,
/// the text that shows the bandwidth.
pub open spec fn inputs_free_of(
    ctx: PageContextModel,
    bandwidth: Seq<char>,
    assets: PageAssetsModel,
    phrase: Seq<char>,
) -> bool {
    &&& free_of(ctx.base_url, phrase)
    &&& forall|i: int| 0 <= i < ctx.catalog.len() ==> entry_free_of(#[trigger] ctx.catalog[i], phrase)
    &&& free_of(assets.style, phrase)
    &&& free_of(assets.script, phrase)
    &&& free_of(assets.builder_script, phrase)
    &&& ctx.stats is Some ==> free_of(bandwidth, phrase)
}

/// What follows the statistics block keeps a caption that the page holds
/// once up to there.
proof fn lemma_rest_keeps_caption(
    front: Seq<char>,
    ctx: PageContextModel,
    assets: PageAssetsModel,
    phrase: Seq<char>,
    line: Seq<char>,
)
    requires
        stats_phrase(phrase),
        free_of(ctx.base_url, phrase),
        forall|i: int| 0 <= i < ctx.catalog.len() ==> entry_free_of(#[trigger] ctx.catalog[i], phrase),
        free_of(assets.script, phrase),
        free_of(assets.builder_script, phrase),
        captioned_once(front, phrase, line),
    ensures
        captioned_once(
            front + form_markup(ctx.base_url, ctx.catalog) + assets.builder_script + SCRIPT_BREAK@
                + assets.script + DOCUMENT_END@,
            phrase,
            line,
        ),
{
    lemma_stats_phrase_words(phrase);
    lemma_fixed_markup_sound(phrase);
    let form = form_markup(ctx.base_url, ctx.catalog);
    lemma_form_sound(ctx.base_url, ctx.catalog, phrase);
    let a = front + form;
    lemma_captioned_then_free(front, form, phrase, line);
    assert(a.last() == form.last());
    let b = a + assets.builder_script;
    lemma_captioned_then_free(a, assets.builder_script, phrase, line);
    let c = b + SCRIPT_BREAK@;
    lemma_captioned_then_free(b, SCRIPT_BREAK@, phrase, line);
    assert(c.last() == SCRIPT_BREAK@.last());
    let d = c + assets.script;
    lemma_captioned_then_free(c, assets.script, phrase, line);
    lemma_captioned_then_free(d, DOCUMENT_END@, phrase, line);
}

/// A page without statistics holds neither caption of the statistics
/// block, if nothing that was set into it holds one.
pub proof fn lemma_page_without_statistics(
    ctx: PageContextModel,
    bandwidth: Seq<char>,
    assets: PageAssetsModel,
    phrase: Seq<char>,
)
    requires
        stats_phrase(phrase),
        ctx.stats is None,
        inputs_free_of(ctx, bandwidth, assets, phrase),
    ensures
        free_of(page_text(ctx, bandwidth, assets), phrase),
{
    lemma_stats_phrase_words(phrase);
    lemma_fixed_markup_sound(phrase);
    let shell = shell_open_markup(assets.style);
    lemma_shell_open_sound(assets.style, phrase);
    let a = shell + HEADER@;
    lemma_joined_sound(shell, HEADER@, phrase);
    assert(a + stats_block(ctx.stats, bandwidth) =~= a);
    let form = form_markup(ctx.base_url, ctx.catalog);
    lemma_form_sound(ctx.base_url, ctx.catalog, phrase);
    let b = a + form;
    lemma_joined_sound(a, form, phrase);
    let c = b + assets.builder_script + SCRIPT_BREAK@;
    lemma_wrapped_sound(b, assets.builder_script, SCRIPT_BREAK@, phrase);
    lemma_wrapped_sound(c, assets.script, DOCUMENT_END@, phrase);
}

/// A page with statistics holds the phrase of the request count once, and
/// there stands that caption's whole line with the number of days, if
/// nothing that was set into the page holds the phrase.
pub proof fn lemma_page_requests_caption(
    ctx: PageContextModel,
    bandwidth: Seq<char>,
    assets: PageAssetsModel,
)
    requires
        ctx.stats is Some,
        inputs_free_of(ctx, bandwidth, assets, REQUESTS_PHRASE@),
    ensures
        captioned_once(
            page_text(ctx, bandwidth, assets),
            REQUESTS_PHRASE@,
            caption_line(REQUESTS_CAPTION@, ctx.stats->0.window_days),
        ),
{
    let phrase = REQUESTS_PHRASE@;
    let snapshot = ctx.stats->0;
    let line = caption_line(REQUESTS_CAPTION@, snapshot.window_days);
    lemma_stats_phrase_words(phrase);
    lemma_fixed_markup_sound(phrase);
    let shell = shell_open_markup(assets.style);
    lemma_shell_open_sound(assets.style, phrase);
    let a = shell + HEADER@;
    lemma_joined_sound(shell, HEADER@, phrase);
    let stats = stats_block(ctx.stats, bandwidth);
    lemma_humanized_free(snapshot.request_count, phrase);
    lemma_stats_requests_captioned(humanized(snapshot.request_count), bandwidth, snapshot.window_days);
    lemma_free_then_captioned(a, stats, phrase, line);
    lemma_rest_keeps_caption(a + stats, ctx, assets, phrase, line);
}

/// A page with statistics holds the phrase of the bandwidth once, and
/// there stands that caption's whole line with the number of days, if
/// nothing that was set into the page holds the phrase.
pub proof fn lemma_page_bandwidth_caption(
    ctx: PageContextModel,
    bandwidth: Seq<char>,
    assets: PageAssetsModel,
)
    requires
        ctx.stats is Some,
        inputs_free_of(ctx, bandwidth, assets, BANDWIDTH_PHRASE@),
    ensures
        captioned_once(
            page_text(ctx, bandwidth, assets),
            BANDWIDTH_PHRASE@,
            caption_line(BANDWIDTH_CAPTION@, ctx.stats->0.window_days),
        ),
{
    let phrase = BANDWIDTH_PHRASE@;
    let snapshot = ctx.stats->0;
    let line = caption_line(BANDWIDTH_CAPTION@, snapshot.window_days);
    lemma_stats_phrase_words(phrase);
    lemma_fixed_markup_sound(phrase);
    let shell = shell_open_markup(assets.style);
    lemma_shell_open_sound(assets.style, phrase);
    let a = shell + HEADER@;
    lemma_joined_sound(shell, HEADER@, phrase);
    let stats = stats_block(ctx.stats, bandwidth);
    lemma_humanized_free(snapshot.request_count, phrase);
    lemma_stats_bandwidth_captioned(
        humanized(snapshot.request_count),
        bandwidth,
        snapshot.window_days,
    );
    lemma_free_then_captioned(a, stats, phrase, line);
    lemma_rest_keeps_caption(a + stats, ctx, assets, phrase, line);
}

} // verus!
