use micro_frontend::config::Environment;
use micro_frontend::template::{
    closes_raw_text_cleanly, context_hash, count_element_starts, create_template_service,
    minified_page, minify_html, production_minify_config, RenderPlan, TemplateService,
    MAX_MINIFIED_NESTING, TEMPLATE_CACHE_LIMIT,
};
use std::hash::{Hash, Hasher};

fn std_hash(text: &str) -> u64 {
    let mut hasher = std::collections::hash_map::DefaultHasher::new();
    text.to_string().hash(&mut hasher);
    hasher.finish()
}

#[test]
fn a_context_is_hashed_as_the_standard_library_hashes_a_string() {
    for text in ["", "{}", "{\"username\": \"admin\"}", "é", "a\u{ff}b"] {
        assert_eq!(context_hash(text), std_hash(text), "{:?}", text);
    }
    assert_ne!(context_hash("a"), context_hash("b"));
}

#[test]
fn test_template_service_creation() {
    let service = TemplateService::new(false, false);
    assert_eq!(service.cached_pages(), 0);
}

#[test]
fn pages_of_one_user_are_never_reused() {
    let mut service = TemplateService::new(true, false);
    assert!(service.is_user_specific_template("display.html"));
    assert!(service.is_user_specific_template("edit.html"));
    assert!(!service.is_user_specific_template("base.html"));
    assert!(!service.is_user_specific_template("Display.html"));
    for name in ["display.html", "edit.html"] {
        assert!(matches!(service.render_plan(name, "{}"), RenderPlan::Render(None)));
    }
    assert_eq!(service.render(None, "<p>x</p>".to_string()).unwrap(), "<p>x</p>");
    assert_eq!(service.cached_pages(), 0);
}

#[test]
fn other_pages_are_kept_under_a_key_of_name_hash_and_switch() {
    let mut service = TemplateService::new(true, false);
    assert_eq!(service.cache_key("about.html", 42), "about.html:42:false");
    let expected_key = format!("about.html:{}:false", std_hash("ctx"));
    assert_eq!(
        TemplateService::new(true, true).cache_key("a", u64::MAX),
        format!("a:{}:true", u64::MAX)
    );
    let key = match service.render_plan("about.html", "ctx") {
        RenderPlan::Render(Some(key)) => key,
        _ => panic!("the page was not to be rendered and kept"),
    };
    assert_eq!(key, expected_key);
    assert_eq!(service.render(Some(key), "<p>about</p>".to_string()).unwrap(), "<p>about</p>");
    assert_eq!(service.cached_pages(), 1);
    assert!(
        matches!(service.render_plan("about.html", "ctx"), RenderPlan::Cached(html) if html == "<p>about</p>")
    );
    assert!(matches!(service.render_plan("about.html", "other"), RenderPlan::Render(Some(_))));
    assert_eq!(service.get_cached_html(&expected_key).as_deref(), Some("<p>about</p>"));
    assert_eq!(service.get_cached_html("about.html:42:true"), None);
    service.clear_cache();
    assert_eq!(service.cached_pages(), 0);
    assert!(matches!(service.render_plan("about.html", "ctx"), RenderPlan::Render(Some(_))));
}

#[test]
fn a_service_without_a_cache_renders_every_time() {
    let mut service = TemplateService::new(false, false);
    assert!(matches!(service.render_plan("about.html", "ctx"), RenderPlan::Render(None)));
    service.cache_html("k".to_string(), "v".to_string());
    assert_eq!(service.cached_pages(), 1);
    assert!(matches!(service.render_plan("k", ""), RenderPlan::Render(None)));
}

#[test]
fn the_page_cache_is_emptied_when_it_has_reached_its_limit() {
    let mut service = TemplateService::new(true, false);
    for i in 0..TEMPLATE_CACHE_LIMIT {
        service.cache_html(format!("k{}", i), "v".to_string());
    }
    assert_eq!(TEMPLATE_CACHE_LIMIT, 100);
    assert_eq!(service.cached_pages(), 100);
    service.cache_html("k5".to_string(), "w".to_string());
    assert_eq!(service.cached_pages(), 1);
    assert_eq!(service.get_cached_html("k5").as_deref(), Some("w"));
    service.cache_html("k5".to_string(), "x".to_string());
    assert_eq!(service.cached_pages(), 1);
    assert_eq!(service.get_cached_html("k5").as_deref(), Some("x"));
}

#[test]
fn pages_are_made_smaller_where_that_is_switched_on() {
    let page = "<!DOCTYPE html>\n<html>\n  <head>\n    <title>  T  </title>\n  </head>\n  <body>\n    <!-- note -->\n    <p>  Hello,   world!  </p>\n  </body>\n</html>\n";
    let smaller = minify_html(page).unwrap();
    assert!(smaller.len() < page.len());
    assert!(smaller.contains("Hello, world!"));
    assert!(!smaller.contains("note"));
    assert!(smaller.contains("</p>"));
    assert!(smaller.contains("<html>"));
    assert_eq!(minify_html(page).unwrap(), smaller);

    let mut service = TemplateService::new(true, true);
    let sent = service.render(Some("k".to_string()), page.to_string()).unwrap();
    assert_eq!(sent, smaller);
    assert_eq!(service.get_cached_html("k"), Some(smaller));

    let config = production_minify_config();
    assert!(config.keep_closing_tags && !config.keep_comments);
    assert!(!config.minify_css && !config.minify_js);
}

#[test]
fn a_page_with_too_much_markup_is_left_as_it_is() {
    assert_eq!(count_element_starts(""), 0);
    assert_eq!(count_element_starts("<"), 0);
    assert_eq!(count_element_starts("a < b <p>x</p> <!-- c --> <?d?> <1 <: <- <_ <"), 4);
    assert_eq!(MAX_MINIFIED_NESTING, 256);
    let at_the_limit = "<i>  x  </i>".repeat(MAX_MINIFIED_NESTING);
    assert_eq!(count_element_starts(&at_the_limit), MAX_MINIFIED_NESTING);
    assert!(minify_html(&at_the_limit).unwrap().len() < at_the_limit.len());
    let over_the_limit = format!("{}<br>", at_the_limit);
    assert_eq!(minify_html(&over_the_limit).unwrap(), over_the_limit);
    let deep = "<div>  x  ".repeat(MAX_MINIFIED_NESTING);
    assert_eq!(count_element_starts(&deep), MAX_MINIFIED_NESTING);
    let smaller = minify_html(&deep).unwrap();
    assert!(smaller.len() < deep.len());
    assert_eq!(smaller.matches("<div>").count(), MAX_MINIFIED_NESTING);
    let deeper = format!("{}<div>", deep);
    assert_eq!(minify_html(&deeper).unwrap(), deeper);
    let nested = "<div>".repeat(100_000);
    assert_eq!(minify_html(&nested).unwrap(), nested);
    let mut service = TemplateService::new(true, true);
    assert_eq!(service.render(Some("k".to_string()), nested.clone()).unwrap(), nested);
    assert_eq!(service.get_cached_html("k"), Some(nested));
}

#[test]
fn a_page_whose_script_ends_in_a_tag_of_another_name_is_left_as_it_is() {
    for page in [
        "",
        "<script>  let a = 1;  </script>  <p>  hello  </p>",
        "<SCRIPT>  a  </SCRIPT >  <p>  b  </p>",
        "<style> p { } </style\n>  <title>  t  </title/>  <textarea>  x  </textarea>",
        "<p>  </scrip-t>  </sty:le>  </p>  </title",
        "<p>  </script  </style=x  </title_  </textarea.",
    ] {
        assert!(closes_raw_text_cleanly(page), "{page}");
        assert!(minify_html(page).unwrap().len() <= page.len(), "{page}");
    }
    let smaller = minify_html("<script>  let a = 1;  </script>  <p>  hello  </p>").unwrap();
    assert_eq!(smaller, "<script>let a = 1;</script><p>hello</p>");
    for page in [
        "<script></scriptx>",
        "<script>  a  </script>  <script>  b  </SCRIPTS>",
        "<p>  a  </p>  <STYLE>  b  </StYlE-2>",
        "<textarea>  x  </textarea:y>",
        "<title>  t  </TITLE9>",
        "<p>  </titles>  </p>",
        "<p>  </p>  </stylea",
    ] {
        assert!(!closes_raw_text_cleanly(page), "{page}");
        assert_eq!(minify_html(page).unwrap(), page);
        let mut service = TemplateService::new(true, true);
        assert_eq!(service.render(Some("k".to_string()), page.to_string()).unwrap(), page);
        assert_eq!(service.get_cached_html("k").as_deref(), Some(page));
    }
}

#[test]
fn bytes_that_are_no_text_are_no_page() {
    assert_eq!(minified_page(b"<p>ok</p>".to_vec()).unwrap(), "<p>ok</p>");
    let error = minified_page(vec![0x3c, 0xff, 0x3e]).unwrap_err();
    assert!(error.starts_with("Failed to convert minified HTML to string: "));
    assert!(error.len() > "Failed to convert minified HTML to string: ".len());
}

#[test]
fn the_service_is_set_up_from_the_environment() {
    let env = |pairs: &[(&str, &str)]| Environment {
        vars: pairs.iter().map(|(k, v)| (k.to_string(), v.to_string())).collect(),
    };
    let service = create_template_service(&env(&[]));
    assert!(matches!(service.render_plan("a.html", "c"), RenderPlan::Render(Some(k)) if k.ends_with(":false")));
    let service = create_template_service(&env(&[("TEMPLATE_CACHE_ENABLED", "false")]));
    assert!(matches!(service.render_plan("a.html", "c"), RenderPlan::Render(None)));
    let service = create_template_service(&env(&[("MINIFY_ENABLED", "true")]));
    assert!(matches!(service.render_plan("a.html", "c"), RenderPlan::Render(Some(k)) if k.ends_with(":true")));
    let service =
        create_template_service(&env(&[("MINIFY_ENABLED", "yes"), ("TEMPLATE_CACHE_ENABLED", "no")]));
    assert!(matches!(service.render_plan("a.html", "c"), RenderPlan::Render(Some(k)) if k.ends_with(":false")));
}
