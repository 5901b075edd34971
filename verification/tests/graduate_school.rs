use nju_cli::cli::graduate_school::{
    article_line, cache_articles, column_lines, find_cached_article, CacheError, CachedArticle,
    GraduateSchoolPage, GraduateSchoolSection,
};
use nju_cli::graduate_school::articles::{
    article_id, list_url, parse_article_list, resolve_site_url, stable_hash, Article,
    ArticlePage, GraduateSchoolError,
};
use nju_cli::graduate_school::entries::{
    article_markdown, article_parts, attachment_markdown, is_html_response, next_list_page,
    strip_duplicate_heading, SectionListing,
};
use nju_cli::weburl::WebUrl;
use nju_cli::graduate_school::sections::{ArticleSection, InfoPage};

#[test]
fn parses_only_main_article_list() {
    let html = r#"
            <div class="col_news_list">
                <ul class="news_list list2">
                    <li class="news">
                        <span class="news_year">08-31</span>
                        <span class="news_days">2026</span>
                        <span class="news_title"><a href="http://grawww.nju.edu.cn/d6/ef/c905a841455/page.htm" title="鼓楼校区综合服务大厅值班表">截断标题</a></span>
                    </li>
                </ul>
            </div>
            <div class="foot-center">
                <ul class="news_list"><li class="news"><span class="news_title"><a href="https://www.nju.edu.cn/">南京大学</a></span></li></ul>
            </div>
            <em class="per_count">14</em>
            <em class="all_count">771</em>
            <span class="pages"><em class="all_pages">56</em></span>
        "#;

    let page = parse_article_list(
        ArticleSection::Notifications,
        1,
        "https://grawww.nju.edu.cn/905/list.htm",
        html,
    )
    .unwrap();

    assert_eq!(page.page_size, Some(14));
    assert_eq!(page.total, Some(771));
    assert_eq!(page.total_pages, Some(56));
    assert_eq!(page.articles.len(), 1);
    assert_eq!(page.articles[0].id, 841455);
    assert_eq!(page.articles[0].title, "鼓楼校区综合服务大厅值班表");
    assert_eq!(page.articles[0].publish_time, "2026-08-31");
    assert_eq!(
        page.articles[0].url,
        "https://grawww.nju.edu.cn/d6/ef/c905a841455/page.htm"
    );
}

#[test]
fn builds_later_page_url() {
    assert_eq!(
        list_url(ArticleSection::Notifications, 3).unwrap().as_str(),
        "https://grawww.nju.edu.cn/905/list3.htm"
    );
}

#[test]
fn rejects_zero_page() {
    assert!(list_url(ArticleSection::Notifications, 0).is_err());
}

#[test]
fn creates_attachment_markdown() {
    assert_eq!(
        attachment_markdown("申请表", "https://grawww.nju.edu.cn/form.doc"),
        "# 申请表\n\n该条目是附件：[申请表](https://grawww.nju.edu.cn/form.doc)"
    );
}

#[test]
fn strips_duplicate_heading() {
    assert_eq!(strip_duplicate_heading("# 通知\n\n正文", "通知"), "正文");
}

#[test]
fn first_list_page_has_no_number() {
    assert_eq!(
        list_url(ArticleSection::Notifications, 1).unwrap().as_str(),
        "https://grawww.nju.edu.cn/905/list.htm"
    );
    assert!(matches!(
        list_url(ArticleSection::StudentRegistration, 0),
        Err(GraduateSchoolError::ZeroPage)
    ));
}

#[test]
fn keeps_other_headings() {
    assert_eq!(strip_duplicate_heading("  # 其他\n正文", "通知"), "# 其他\n正文");
    assert_eq!(strip_duplicate_heading("正文", "通知"), "正文");
}

#[test]
fn stable_hash_is_fnv1a_without_top_bit() {
    assert_eq!(stable_hash("abc"), 7430836138530658123);
    assert_eq!(stable_hash("abc"), stable_hash("abc"));
    assert!(stable_hash("鼓楼") < 1 << 63);
}

#[test]
fn stops_listing_at_the_last_page() {
    assert_eq!(next_list_page(14, Some(771), Some(56), 14, 1), Some(2));
    assert_eq!(next_list_page(14, Some(771), Some(56), 784, 56), None);
    assert_eq!(next_list_page(0, None, None, 0, 1), None);
}

#[test]
fn section_names_match_the_site() {
    assert_eq!(ArticleSection::Notifications.slug(), "notifications");
    assert_eq!(
        ArticleSection::Notifications.list_url(),
        "https://grawww.nju.edu.cn/905/list.htm"
    );
    assert_eq!(ArticleSection::all().len(), 20);
    assert_eq!(InfoPage::all().len(), 12);
}

#[test]
fn command_line_names_map_to_sections_and_pages() {
    assert_eq!(
        ArticleSection::from(GraduateSchoolSection::DegreeWork),
        ArticleSection::DegreeWork
    );
    assert_eq!(
        InfoPage::from(GraduateSchoolPage::SuzhouOffice),
        InfoPage::SuzhouOffice
    );
}

fn cached(id: u64, title: &str, publish_time: &str) -> CachedArticle {
    CachedArticle {
        id,
        title: title.to_string(),
        url: format!("https://grawww.nju.edu.cn/{id}/page.htm"),
        publish_time: publish_time.to_string(),
    }
}

#[test]
fn caches_articles_in_order() {
    let articles = vec![
        Article {
            id: 2,
            title: "b".to_string(),
            publish_time: "2026-01-02".to_string(),
            url: "https://grawww.nju.edu.cn/2/page.htm".to_string(),
        },
        Article {
            id: 1,
            title: "a".to_string(),
            publish_time: String::new(),
            url: "https://grawww.nju.edu.cn/1/page.htm".to_string(),
        },
    ];
    let cache = cache_articles(articles);
    assert_eq!(cache.len(), 2);
    assert_eq!(cache[0].id, 2);
    assert_eq!(cache[0].publish_time, "2026-01-02");
    assert_eq!(cache[1].title, "a");
    assert_eq!(cache[1].url, "https://grawww.nju.edu.cn/1/page.htm");
}

#[test]
fn finds_cached_article_by_id() {
    let cache = vec![cached(7, "first", ""), cached(9, "second", ""), cached(9, "third", "")];
    let found = find_cached_article(&cache, ArticleSection::Notifications, 9).unwrap();
    assert_eq!(found.title, "second");
    match find_cached_article(&cache, ArticleSection::Notifications, 8) {
        Err(CacheError::NotCached(message)) => assert_eq!(
            message,
            "通知公告 id 8 is not cached; run `nju-cli graduate-school list notifications` first"
        ),
        Ok(_) => panic!("article 8 is not cached"),
    }
}

#[test]
fn prints_article_lines() {
    assert_eq!(article_line(&cached(5, "标题", "")), "5 标题");
    assert_eq!(article_line(&cached(5, "标题", "2026-08-31")), "5 2026-08-31 标题");
}

#[test]
fn lists_every_column() {
    let lines = column_lines();
    assert_eq!(lines.len(), 32);
    assert_eq!(
        lines[0],
        "list notifications 通知公告 https://grawww.nju.edu.cn/905/list.htm"
    );
    assert!(lines[20].starts_with("page "));
}

#[test]
fn resolves_and_normalizes_site_urls() {
    assert_eq!(
        resolve_site_url("http://grawww.nju.edu.cn/d6/ef/c905a841455/page.htm#top")
            .unwrap()
            .as_str(),
        "https://grawww.nju.edu.cn/d6/ef/c905a841455/page.htm"
    );
    assert_eq!(
        resolve_site_url("/905/list.htm").unwrap().as_str(),
        "https://grawww.nju.edu.cn/905/list.htm"
    );
    assert_eq!(
        resolve_site_url("http://www.nju.edu.cn/a.htm").unwrap().as_str(),
        "http://www.nju.edu.cn/a.htm"
    );
}

#[test]
fn identifies_articles_by_their_site_id_or_a_hash() {
    let internal = WebUrl::parse("https://grawww.nju.edu.cn/d6/ef/c905a841455/page.htm").unwrap();
    assert_eq!(article_id(&internal), 841455);
    let external = WebUrl::parse("https://www.nju.edu.cn/info/1.htm").unwrap();
    assert_eq!(
        article_id(&external),
        (1 << 63) | stable_hash("https://www.nju.edu.cn/info/1.htm")
    );
}

#[test]
fn tells_pages_from_attachments() {
    let page = WebUrl::parse("https://grawww.nju.edu.cn/a/page.htm").unwrap();
    let file = WebUrl::parse("https://grawww.nju.edu.cn/_upload/form.doc").unwrap();
    assert!(is_html_response("TEXT/HTML; charset=utf-8", &file));
    assert!(is_html_response("", &page));
    assert!(!is_html_response("application/msword", &file));
}

#[test]
fn renders_an_entry_with_its_attachments() {
    let html = r#"<h1 class="arti_title"> 通知 </h1>
        <div class="wp_articlecontent"><p>正文</p>
        <div class="wp_pdf_player" pdfsrc="/_upload/a.pdf"></div>
        <iframe pdfsrc="/_upload/a.pdf" src="/viewer.html?file=/_upload/b.pdf"></iframe></div>"#;
    let parts = article_parts(html, "https://grawww.nju.edu.cn/d6/ef/c905a841455/page.htm").unwrap();
    assert_eq!(parts.title.as_deref(), Some("通知"));
    assert!(parts.content_html.starts_with("<div class=\"wp_articlecontent\">"));
    assert_eq!(
        parts.pdf_urls,
        vec![
            "https://grawww.nju.edu.cn/_upload/a.pdf".to_string(),
            "https://grawww.nju.edu.cn/_upload/b.pdf".to_string(),
        ]
    );
    assert_eq!(
        article_markdown(&parts, "# 通知\n\n正文"),
        "# 通知\n\n正文\n\n## 附件\n\n- [PDF](https://grawww.nju.edu.cn/_upload/a.pdf)\n- [PDF](https://grawww.nju.edu.cn/_upload/b.pdf)\n"
    );
}

#[test]
fn every_section_lists_its_first_page_at_its_list_url() {
    for section in ArticleSection::all() {
        assert_eq!(list_url(section, 1).unwrap().as_str(), section.list_url());
    }
}

fn listed(id: u64) -> Article {
    Article {
        id,
        title: format!("t{id}"),
        publish_time: String::new(),
        url: format!("https://grawww.nju.edu.cn/{id}/page.htm"),
    }
}

fn list_page(index: u64, ids: &[u64], total: Option<u64>, total_pages: Option<u64>) -> ArticlePage {
    ArticlePage {
        section: ArticleSection::Notifications,
        page_index: index,
        page_size: Some(2),
        total,
        total_pages,
        articles: ids.iter().map(|&id| listed(id)).collect(),
    }
}

#[test]
fn a_listing_gathers_pages_until_the_announced_total() {
    let mut listing = SectionListing::new();
    assert_eq!(listing.next_page, Some(1));
    assert_eq!(listing.take_page(list_page(1, &[1, 2], Some(3), Some(2))), Some(2));
    assert_eq!(listing.next_page, Some(2));
    assert_eq!(listing.take_page(list_page(2, &[3], Some(3), Some(2))), None);
    assert_eq!(listing.next_page, None);
    let ids: Vec<u64> = listing.articles.iter().map(|a| a.id).collect();
    assert_eq!(ids, vec![1, 2, 3]);
}

#[test]
fn a_listing_stops_at_an_empty_page() {
    let mut listing = SectionListing::new();
    assert_eq!(listing.take_page(list_page(1, &[1], None, None)), Some(2));
    assert_eq!(listing.take_page(list_page(2, &[], None, None)), None);
    assert_eq!(listing.articles.len(), 1);
}
