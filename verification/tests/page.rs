use polyfill_pages::catalog::{assemble, CatalogRenderModel, RawCatalog, RenderEntry};
use polyfill_pages::page::{compose, render_page, PageAssets, PageContext, StatsSnapshot};

fn assets() -> PageAssets {
    PageAssets {
        style: "body{margin:0}".to_string(),
        script: "console.log('page')".to_string(),
        builder_script: "console.log('builder')".to_string(),
    }
}

fn empty_catalog() -> CatalogRenderModel {
    CatalogRenderModel { entries: vec![] }
}

fn count(text: &str, phrase: &str) -> usize {
    (0..text.len()).filter(|&i| text.is_char_boundary(i) && text[i..].starts_with(phrase)).count()
}

fn sample_stats() -> StatsSnapshot {
    StatsSnapshot { request_count: 1_234_567, bandwidth_bytes: 2_300_000_000, window_days: 28 }
}

#[test]
fn without_statistics_the_block_is_left_out() {
    let ctx = PageContext {
        base_url: "https://polyfill.example".to_string(),
        stats: None,
        catalog: empty_catalog(),
    };
    let page = compose(&ctx, &assets());
    assert_eq!(count(&page, "requests served"), 0);
    assert_eq!(count(&page, "worth of polyfills served"), 0);
    assert_eq!(count(&page, "Proudly sponsored by"), 0);
    assert_eq!(count(&page, "<article"), 0);
    assert!(page.contains("<h1>Upgrade the web. Automatically.</h1>"));
}

#[test]
fn with_statistics_each_caption_stands_once() {
    let ctx = PageContext {
        base_url: "https://polyfill.example".to_string(),
        stats: Some(sample_stats()),
        catalog: empty_catalog(),
    };
    let page = compose(&ctx, &assets());
    assert_eq!(count(&page, "requests served"), 1);
    assert_eq!(count(&page, "worth of polyfills served"), 1);
    assert_eq!(count(&page, "<span>requests served over last 28 days.</span>"), 1);
    assert_eq!(count(&page, "<span>worth of polyfills served over last 28 days.</span>"), 1);
    assert_eq!(count(&page, "Proudly sponsored by "), 1);
}

#[test]
fn figures_of_the_sample_snapshot() {
    let ctx = PageContext {
        base_url: String::new(),
        stats: Some(sample_stats()),
        catalog: empty_catalog(),
    };
    let page = compose(&ctx, &assets());
    assert!(page.contains(">1.2 million</span><br><span>requests served over last 28 days.</span>"));
    assert!(page
        .contains(">2.30 GB</span><br><span>worth of polyfills served over last 28 days.</span>"));
    assert_eq!(count(&page, "28 days"), 2);
}

#[test]
fn statistics_of_zero_are_shown() {
    let ctx = PageContext {
        base_url: String::new(),
        stats: Some(StatsSnapshot { request_count: 0, bandwidth_bytes: 0, window_days: 0 }),
        catalog: empty_catalog(),
    };
    let page = compose(&ctx, &assets());
    assert!(page.contains(">0</span><br><span>requests served over last 0 days.</span>"));
    assert!(page.contains(">0 B</span><br><span>worth of polyfills served over last 0 days.</span>"));
}

#[test]
fn the_largest_window_is_written_in_full() {
    let ctx = PageContext {
        base_url: String::new(),
        stats: Some(StatsSnapshot {
            request_count: 999,
            bandwidth_bytes: 1_000_000,
            window_days: u32::MAX,
        }),
        catalog: empty_catalog(),
    };
    let page = compose(&ctx, &assets());
    assert!(page.contains(">999</span><br><span>requests served over last 4294967295 days.</span>"));
    assert!(page.contains(
        ">1 MB</span><br><span>worth of polyfills served over last 4294967295 days.</span>"
    ));
}

#[test]
fn render_page_sets_the_given_bandwidth_text() {
    let ctx = PageContext {
        base_url: String::new(),
        stats: Some(sample_stats()),
        catalog: empty_catalog(),
    };
    let page = render_page(&ctx, "a <lot>", &assets());
    assert!(page.contains(
        ">a &lt;lot&gt;</span><br><span>worth of polyfills served over last 28 days.</span>"
    ));
    let same = render_page(&ctx, "2.30 GB", &assets());
    assert_eq!(same, compose(&ctx, &assets()));
}

#[test]
fn the_bundle_address_echoes_the_base_address() {
    let ctx = PageContext {
        base_url: "https://polyfill.example".to_string(),
        stats: None,
        catalog: empty_catalog(),
    };
    let page = compose(&ctx, &assets());
    assert!(page.contains(
        "<code id=\"polyfill-bundle-url\">https://polyfill.example/v3/polyfill.min.js</code>"
    ));
    let odd = PageContext {
        base_url: "not a url & <odd> \"one\"".to_string(),
        stats: None,
        catalog: empty_catalog(),
    };
    let page = compose(&odd, &assets());
    assert!(page.contains(
        "<code id=\"polyfill-bundle-url\">not a url &amp; &lt;odd&gt; &quot;one&quot;/v3/polyfill.min.js</code>"
    ));
}

#[test]
fn the_shell_is_the_same_for_every_page() {
    let ctx = PageContext { base_url: String::new(), stats: None, catalog: empty_catalog() };
    let page = compose(&ctx, &assets());
    assert!(page.starts_with(
        "<!DOCTYPE html><html lang=\"en\"><head><meta charset=\"UTF-8\"><meta http-equiv=\"x-ua-compatible\" content=\"ie=edge\">"
    ));
    assert!(page.contains("<title>Fastly Polyfill</title><link rel=\"icon\" href=\"/img/fastly-favicon.svg\"><style>body{margin:0}</style></head><body><nav class=\"container-fluid\">"));
    assert!(page.contains("<a href=\"https://www.fastly.com/terms/\" class=\"secondary\">Terms &amp; Conditions</a>"));
    assert!(page.contains("<a href=\"https://www.fastly.com/privacy/\" class=\"secondary\">Privacy Policy</a>"));
    assert!(page.contains("<a href=\"https://github.com/fastly/polyfill-service/\" class=\"contrast\" aria-label=\"GitHub repository\">"));
    assert!(page.contains("<button class=\"contrast switcher theme-switcher\" aria-label=\"Turn off dark mode\"><i>Turn off dark mode</i></button></main><script>console.log('builder')</script><script defer=\"\">console.log('page')</script></body></html>"));
    assert!(page.ends_with("</script></body></html>"));
    assert!(page.contains("<small>Filter the polyfills in the &quot;Available Polyfills&quot; list.</small>"));
}

#[test]
fn the_version_selector_lists_the_known_versions() {
    let ctx = PageContext { base_url: String::new(), stats: None, catalog: empty_catalog() };
    let page = compose(&ctx, &assets());
    assert!(page.contains("<select id=\"library-version\"><option value=\"3.111.0\" selected=\"\">3.111.0</option><option value=\"3.110.1\">3.110.1</option>"));
    assert!(page.contains("<option value=\"3.27.4\">3.27.4</option></select>"));
    assert_eq!(count(&page, "<option value="), 25);
    assert_eq!(count(&page, " selected=\"\""), 1);
}

#[test]
fn assets_are_set_in_as_they_are() {
    let ctx = PageContext { base_url: String::new(), stats: None, catalog: empty_catalog() };
    let raw = PageAssets {
        style: "a > b { content: \"&\" }".to_string(),
        script: "if (a < b && c) {}".to_string(),
        builder_script: "let s = \"<x>\";".to_string(),
    };
    let page = compose(&ctx, &raw);
    assert!(page.contains("<style>a > b { content: \"&\" }</style>"));
    assert!(page.contains("<script defer=\"\">if (a < b && c) {}</script>"));
    assert!(page.contains("<script>let s = \"<x>\";</script>"));
}

#[test]
fn an_empty_catalog_leaves_the_list_empty() {
    let ctx = PageContext { base_url: String::new(), stats: None, catalog: empty_catalog() };
    let page = compose(&ctx, &assets());
    assert!(page.contains("<div id=\"features-list\"></div></fieldset></form>"));
}

#[test]
fn lines_are_written_in_the_order_of_the_catalog() {
    let catalog = CatalogRenderModel {
        entries: vec![
            RenderEntry::Alias {
                name: "es6".to_string(),
                members: vec!["Promise".to_string(), "Map".to_string()],
            },
            RenderEntry::Alias { name: "none".to_string(), members: vec![] },
            RenderEntry::Feature { name: "fetch".to_string() },
            RenderEntry::Feature { name: "Promise".to_string() },
        ],
    };
    let ctx = PageContext { base_url: String::new(), stats: None, catalog };
    let page = compose(&ctx, &assets());
    let expected = concat_all(&[
        "<div id=\"features-list\">",
        "<div class=\"feature\"><label for=\"es6\"><input type=\"checkbox\" id=\"es6\" name=\"es6\">es6</label>",
        "<details class=\"alias\"><summary>Included Polyfills</summary><ul><li>Promise</li><li>Map</li></ul></details></div>",
        "<div class=\"feature\"><label for=\"none\"><input type=\"checkbox\" id=\"none\" name=\"none\">none</label>",
        "<details class=\"alias\"><summary>Included Polyfills</summary><ul></ul></details></div>",
        "<div class=\"feature\"><label for=\"fetch\"><input type=\"checkbox\" id=\"fetch\" name=\"fetch\">fetch</label></div>",
        "<div class=\"feature\"><label for=\"Promise\"><input type=\"checkbox\" id=\"Promise\" name=\"Promise\">Promise</label></div>",
        "</div></fieldset></form>",
    ]);
    assert!(page.contains(&expected));
}

fn concat_all(parts: &[&str]) -> String {
    parts.iter().map(|s| s.to_string()).collect::<Vec<String>>().join("")
}

#[test]
fn names_are_escaped_wherever_they_stand() {
    let catalog = CatalogRenderModel {
        entries: vec![RenderEntry::Alias {
            name: "a\"b".to_string(),
            members: vec!["<m&n>".to_string()],
        }],
    };
    let ctx = PageContext { base_url: String::new(), stats: None, catalog };
    let page = compose(&ctx, &assets());
    assert!(page.contains("<label for=\"a&quot;b\"><input type=\"checkbox\" id=\"a&quot;b\" name=\"a&quot;b\">a&quot;b</label>"));
    assert!(page.contains("<ul><li>&lt;m&amp;n&gt;</li></ul>"));
}

#[test]
fn an_assembled_catalog_is_shown_aliases_first() {
    let raw = RawCatalog {
        features: vec!["fetch".to_string(), "atob".to_string()],
        alias_members: vec![
            ("es6".to_string(), vec!["fetch".to_string()]),
            ("default".to_string(), vec!["atob".to_string()]),
        ],
    };
    let ctx = PageContext { base_url: String::new(), stats: None, catalog: assemble(raw) };
    let page = compose(&ctx, &assets());
    let default_at = page.find("<label for=\"default\">").unwrap();
    let es6_at = page.find("<label for=\"es6\">").unwrap();
    let fetch_at = page.find("<label for=\"fetch\">").unwrap();
    let atob_at = page.find("<label for=\"atob\">").unwrap();
    assert!(default_at < es6_at);
    assert!(es6_at < fetch_at);
    assert!(fetch_at < atob_at);
}

#[test]
fn equal_contexts_give_equal_pages() {
    let make = || PageContext {
        base_url: "https://polyfill.example".to_string(),
        stats: Some(sample_stats()),
        catalog: CatalogRenderModel {
            entries: vec![RenderEntry::Feature { name: "fetch".to_string() }],
        },
    };
    assert_eq!(compose(&make(), &assets()), compose(&make(), &assets()));
}
