//! The files that are the same for everyone: the manifest, the note to robots, and the
//! sitemap.

use vstd::prelude::*;
use vstd::string::StringExecFns;

verus! {

/// A file that is sent as it is.
#[derive(Debug)]
pub struct StaticFile {
    pub content_type: String,
    pub cache_control: String,
    pub body: String,
}

/// The manifest of the web application, as JSON with its members in alphabetical order.
pub const WEB_MANIFEST: &'static str =
    r##"{"background_color":"#f5f5f5","categories":["business","productivity"],"description":"A high-performance, containerized micro web-application demonstrating modern web development constraints with Rust, Docker, and micro front-end architecture","display":"standalone","icons":[{"sizes":"any","src":"data:image/svg+xml,<svg xmlns='http://www.w3.org/2000/svg' viewBox='0 0 100 100'><text y='.9em' font-size='90'>⚡</text></svg>","type":"image/svg+xml"}],"lang":"en-US","name":"Micro Frontend App","orientation":"portrait-primary","short_name":"MicroApp","start_url":"/","theme_color":"#3498db"}"##;

/// The note to robots: everything may be visited, and where the sitemap is.
pub const ROBOTS_TXT: &'static str =
    "User-agent: *\nAllow: /\n\nSitemap: https://example.com/sitemap.xml";

/// The sitemap.
pub const SITEMAP_XML: &'static str = r#"<?xml version="1.0" encoding="UTF-8"?>
<urlset xmlns="http://www.sitemaps.org/schemas/sitemap/0.9">
    <url>
        <loc>https://example.com/</loc>
        <changefreq>monthly</changefreq>
        <priority>1.0</priority>
    </url>
    <url>
        <loc>https://example.com/edit</loc>
        <changefreq>weekly</changefreq>
        <priority>0.8</priority>
    </url>
    <url>
        <loc>https://example.com/display/username/exampleuser</loc>
        <changefreq>daily</changefreq>
        <priority>0.9</priority>
    </url>
</urlset>"#;

/// A file with the given type, caching rule and content.
fn static_file(content_type: &str, cache_control: &str, body: &str) -> (r: StaticFile)
    ensures
        r.content_type@ == content_type@,
        r.cache_control@ == cache_control@,
        r.body@ == body@,
{
    StaticFile {
        content_type: String::from_str(content_type),
        cache_control: String::from_str(cache_control),
        body: String::from_str(body),
    }
}

/// The manifest, which may be kept for an hour.
pub fn get_manifest() -> (r: StaticFile)
    ensures
        r.content_type@ == "application/json"@,
        r.cache_control@ == "public, max-age=3600"@,
        r.body@ == WEB_MANIFEST@,
{
    static_file("application/json", "public, max-age=3600", WEB_MANIFEST)
}

/// The note to robots, which may be kept for a day.
pub fn get_robots_txt() -> (r: StaticFile)
    ensures
        r.content_type@ == "text/plain"@,
        r.cache_control@ == "public, max-age=86400"@,
        r.body@ == ROBOTS_TXT@,
{
    static_file("text/plain", "public, max-age=86400", ROBOTS_TXT)
}

/// The sitemap, which may be kept for a day.
pub fn get_sitemap() -> (r: StaticFile)
    ensures
        r.content_type@ == "application/xml"@,
        r.cache_control@ == "public, max-age=86400"@,
        r.body@ == SITEMAP_XML@,
{
    static_file("application/xml", "public, max-age=86400", SITEMAP_XML)
}

} // verus!
