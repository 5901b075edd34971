//! The `graduate-school` commands: the sections and pages they name, the
//! article list cached between `list` and `view`, and the lines printed.

use vstd::prelude::*;
use vstd::std_specs::convert::FromSpecImpl;
use crate::graduate_school::articles::{Article, ArticleView};
use crate::graduate_school::sections::{ArticleSection, InfoPage, all_pages, all_sections};
use crate::text::{decimal, string_of, u64_decimal};

verus! {

broadcast use vstd::string::group_string_axioms;

/// An article section, as the command line names it.
#[derive(Debug, Clone, Copy, PartialEq, Eq, Structural)]
pub enum GraduateSchoolSection {
    Notifications,
    ServiceGuides,
    TrainingRegulations,
    NationalSponsoredPrograms,
    UniversityExchangePrograms,
    TrainingInnovationProjects,
    CombinedMasterDoctor,
    CourseDevelopment,
    TrainingStudentStatus,
    TrainingDownloads,
    DegreeWork,
    SupervisorWork,
    ExcellentTheses,
    DegreeImprovementProgram,
    DegreeDownloads,
    HonoraryDoctors,
    StudentPolicies,
    GraduationCertificates,
    StudentDownloads,
    StudentRegistration,
}

/// An information page, as the command line names it.
#[derive(Debug, Clone, Copy, PartialEq, Eq, Structural)]
pub enum GraduateSchoolPage {
    GraduateSchoolIntroduction,
    DepartmentLeaders,
    GeneralOffice,
    AdmissionsOffice,
    TrainingOffice,
    DevelopmentOffice,
    DegreeOffice,
    StudentAffairsOffice,
    SuzhouOffice,
    DegreeCommittee,
    CompletionCertificates,
    StudentStatusChanges,
}

/// The ArticleSection that a command-line GraduateSchoolSection names.
pub open spec fn section_target(v: GraduateSchoolSection) -> ArticleSection {
    match v {
        GraduateSchoolSection::Notifications => ArticleSection::Notifications,
        GraduateSchoolSection::ServiceGuides => ArticleSection::ServiceGuides,
        GraduateSchoolSection::TrainingRegulations => ArticleSection::TrainingRegulations,
        GraduateSchoolSection::NationalSponsoredPrograms => ArticleSection::NationalSponsoredPrograms,
        GraduateSchoolSection::UniversityExchangePrograms => ArticleSection::UniversityExchangePrograms,
        GraduateSchoolSection::TrainingInnovationProjects => ArticleSection::TrainingInnovationProjects,
        GraduateSchoolSection::CombinedMasterDoctor => ArticleSection::CombinedMasterDoctor,
        GraduateSchoolSection::CourseDevelopment => ArticleSection::CourseDevelopment,
        GraduateSchoolSection::TrainingStudentStatus => ArticleSection::TrainingStudentStatus,
        GraduateSchoolSection::TrainingDownloads => ArticleSection::TrainingDownloads,
        GraduateSchoolSection::DegreeWork => ArticleSection::DegreeWork,
        GraduateSchoolSection::SupervisorWork => ArticleSection::SupervisorWork,
        GraduateSchoolSection::ExcellentTheses => ArticleSection::ExcellentTheses,
        GraduateSchoolSection::DegreeImprovementProgram => ArticleSection::DegreeImprovementProgram,
        GraduateSchoolSection::DegreeDownloads => ArticleSection::DegreeDownloads,
        GraduateSchoolSection::HonoraryDoctors => ArticleSection::HonoraryDoctors,
        GraduateSchoolSection::StudentPolicies => ArticleSection::StudentPolicies,
        GraduateSchoolSection::GraduationCertificates => ArticleSection::GraduationCertificates,
        GraduateSchoolSection::StudentDownloads => ArticleSection::StudentDownloads,
        GraduateSchoolSection::StudentRegistration => ArticleSection::StudentRegistration,
    }
}

impl From<GraduateSchoolSection> for ArticleSection {
    fn from(v: GraduateSchoolSection) -> (r: ArticleSection)
        ensures
            r == section_target(v),
    {
        match v {
            GraduateSchoolSection::Notifications => ArticleSection::Notifications,
            GraduateSchoolSection::ServiceGuides => ArticleSection::ServiceGuides,
            GraduateSchoolSection::TrainingRegulations => ArticleSection::TrainingRegulations,
            GraduateSchoolSection::NationalSponsoredPrograms => ArticleSection::NationalSponsoredPrograms,
            GraduateSchoolSection::UniversityExchangePrograms => ArticleSection::UniversityExchangePrograms,
            GraduateSchoolSection::TrainingInnovationProjects => ArticleSection::TrainingInnovationProjects,
            GraduateSchoolSection::CombinedMasterDoctor => ArticleSection::CombinedMasterDoctor,
            GraduateSchoolSection::CourseDevelopment => ArticleSection::CourseDevelopment,
            GraduateSchoolSection::TrainingStudentStatus => ArticleSection::TrainingStudentStatus,
            GraduateSchoolSection::TrainingDownloads => ArticleSection::TrainingDownloads,
            GraduateSchoolSection::DegreeWork => ArticleSection::DegreeWork,
            GraduateSchoolSection::SupervisorWork => ArticleSection::SupervisorWork,
            GraduateSchoolSection::ExcellentTheses => ArticleSection::ExcellentTheses,
            GraduateSchoolSection::DegreeImprovementProgram => ArticleSection::DegreeImprovementProgram,
            GraduateSchoolSection::DegreeDownloads => ArticleSection::DegreeDownloads,
            GraduateSchoolSection::HonoraryDoctors => ArticleSection::HonoraryDoctors,
            GraduateSchoolSection::StudentPolicies => ArticleSection::StudentPolicies,
            GraduateSchoolSection::GraduationCertificates => ArticleSection::GraduationCertificates,
            GraduateSchoolSection::StudentDownloads => ArticleSection::StudentDownloads,
            GraduateSchoolSection::StudentRegistration => ArticleSection::StudentRegistration,
        }
    }
}

impl FromSpecImpl<GraduateSchoolSection> for ArticleSection {
    open spec fn obeys_from_spec() -> bool {
        true
    }

    open spec fn from_spec(v: GraduateSchoolSection) -> ArticleSection {
        section_target(v)
    }
}

/// The InfoPage that a command-line GraduateSchoolPage names.
pub open spec fn page_target(v: GraduateSchoolPage) -> InfoPage {
    match v {
        GraduateSchoolPage::GraduateSchoolIntroduction => InfoPage::GraduateSchoolIntroduction,
        GraduateSchoolPage::DepartmentLeaders => InfoPage::DepartmentLeaders,
        GraduateSchoolPage::GeneralOffice => InfoPage::GeneralOffice,
        GraduateSchoolPage::AdmissionsOffice => InfoPage::AdmissionsOffice,
        GraduateSchoolPage::TrainingOffice => InfoPage::TrainingOffice,
        GraduateSchoolPage::DevelopmentOffice => InfoPage::DevelopmentOffice,
        GraduateSchoolPage::DegreeOffice => InfoPage::DegreeOffice,
        GraduateSchoolPage::StudentAffairsOffice => InfoPage::StudentAffairsOffice,
        GraduateSchoolPage::SuzhouOffice => InfoPage::SuzhouOffice,
        GraduateSchoolPage::DegreeCommittee => InfoPage::DegreeCommittee,
        GraduateSchoolPage::CompletionCertificates => InfoPage::CompletionCertificates,
        GraduateSchoolPage::StudentStatusChanges => InfoPage::StudentStatusChanges,
    }
}

impl From<GraduateSchoolPage> for InfoPage {
    fn from(v: GraduateSchoolPage) -> (r: InfoPage)
        ensures
            r == page_target(v),
    {
        match v {
            GraduateSchoolPage::GraduateSchoolIntroduction => InfoPage::GraduateSchoolIntroduction,
            GraduateSchoolPage::DepartmentLeaders => InfoPage::DepartmentLeaders,
            GraduateSchoolPage::GeneralOffice => InfoPage::GeneralOffice,
            GraduateSchoolPage::AdmissionsOffice => InfoPage::AdmissionsOffice,
            GraduateSchoolPage::TrainingOffice => InfoPage::TrainingOffice,
            GraduateSchoolPage::DevelopmentOffice => InfoPage::DevelopmentOffice,
            GraduateSchoolPage::DegreeOffice => InfoPage::DegreeOffice,
            GraduateSchoolPage::StudentAffairsOffice => InfoPage::StudentAffairsOffice,
            GraduateSchoolPage::SuzhouOffice => InfoPage::SuzhouOffice,
            GraduateSchoolPage::DegreeCommittee => InfoPage::DegreeCommittee,
            GraduateSchoolPage::CompletionCertificates => InfoPage::CompletionCertificates,
            GraduateSchoolPage::StudentStatusChanges => InfoPage::StudentStatusChanges,
        }
    }
}

impl FromSpecImpl<GraduateSchoolPage> for InfoPage {
    open spec fn obeys_from_spec() -> bool {
        true
    }

    open spec fn from_spec(v: GraduateSchoolPage) -> InfoPage {
        page_target(v)
    }
}

/// The command-line name of the section `v`.
pub open spec fn section_source(v: ArticleSection) -> GraduateSchoolSection {
    match v {
        ArticleSection::Notifications => GraduateSchoolSection::Notifications,
        ArticleSection::ServiceGuides => GraduateSchoolSection::ServiceGuides,
        ArticleSection::TrainingRegulations => GraduateSchoolSection::TrainingRegulations,
        ArticleSection::NationalSponsoredPrograms => GraduateSchoolSection::NationalSponsoredPrograms,
        ArticleSection::UniversityExchangePrograms => GraduateSchoolSection::UniversityExchangePrograms,
        ArticleSection::TrainingInnovationProjects => GraduateSchoolSection::TrainingInnovationProjects,
        ArticleSection::CombinedMasterDoctor => GraduateSchoolSection::CombinedMasterDoctor,
        ArticleSection::CourseDevelopment => GraduateSchoolSection::CourseDevelopment,
        ArticleSection::TrainingStudentStatus => GraduateSchoolSection::TrainingStudentStatus,
        ArticleSection::TrainingDownloads => GraduateSchoolSection::TrainingDownloads,
        ArticleSection::DegreeWork => GraduateSchoolSection::DegreeWork,
        ArticleSection::SupervisorWork => GraduateSchoolSection::SupervisorWork,
        ArticleSection::ExcellentTheses => GraduateSchoolSection::ExcellentTheses,
        ArticleSection::DegreeImprovementProgram => GraduateSchoolSection::DegreeImprovementProgram,
        ArticleSection::DegreeDownloads => GraduateSchoolSection::DegreeDownloads,
        ArticleSection::HonoraryDoctors => GraduateSchoolSection::HonoraryDoctors,
        ArticleSection::StudentPolicies => GraduateSchoolSection::StudentPolicies,
        ArticleSection::GraduationCertificates => GraduateSchoolSection::GraduationCertificates,
        ArticleSection::StudentDownloads => GraduateSchoolSection::StudentDownloads,
        ArticleSection::StudentRegistration => GraduateSchoolSection::StudentRegistration,
    }
}

/// Naming sections on the command line is a bijection: each section has
/// exactly one command-line name, and each name gives its section.
pub proof fn lemma_section_target_bijective(v: GraduateSchoolSection, a: ArticleSection)
    ensures
        section_target(section_source(a)) == a,
        section_source(section_target(v)) == v,
        section_target(v) == a <==> v == section_source(a),
{
}

/// The command-line name of the page `v`.
pub open spec fn page_source(v: InfoPage) -> GraduateSchoolPage {
    match v {
        InfoPage::GraduateSchoolIntroduction => GraduateSchoolPage::GraduateSchoolIntroduction,
        InfoPage::DepartmentLeaders => GraduateSchoolPage::DepartmentLeaders,
        InfoPage::GeneralOffice => GraduateSchoolPage::GeneralOffice,
        InfoPage::AdmissionsOffice => GraduateSchoolPage::AdmissionsOffice,
        InfoPage::TrainingOffice => GraduateSchoolPage::TrainingOffice,
        InfoPage::DevelopmentOffice => GraduateSchoolPage::DevelopmentOffice,
        InfoPage::DegreeOffice => GraduateSchoolPage::DegreeOffice,
        InfoPage::StudentAffairsOffice => GraduateSchoolPage::StudentAffairsOffice,
        InfoPage::SuzhouOffice => GraduateSchoolPage::SuzhouOffice,
        InfoPage::DegreeCommittee => GraduateSchoolPage::DegreeCommittee,
        InfoPage::CompletionCertificates => GraduateSchoolPage::CompletionCertificates,
        InfoPage::StudentStatusChanges => GraduateSchoolPage::StudentStatusChanges,
    }
}

/// Naming pages on the command line is a bijection: each page has
/// exactly one command-line name, and each name gives its page.
pub proof fn lemma_page_target_bijective(v: GraduateSchoolPage, a: InfoPage)
    ensures
        page_target(page_source(a)) == a,
        page_source(page_target(v)) == v,
        page_target(v) == a <==> v == page_source(a),
{
}

/// A `graduate-school` command.
pub enum GraduateSchoolCommand {
    /// List the sections and pages.
    Columns,
    /// List the articles of `section`: the page `page` (counted from 1), or
    /// every page where `all` is set; the list is cached.
    List { section: GraduateSchoolSection, page: u64, all: bool },
    /// Show the cached article `article_id` of `section`.
    View { section: GraduateSchoolSection, article_id: u64 },
    /// Show the information page `page`.
    Page { page: GraduateSchoolPage },
}

/// An article as the cache of a section keeps it.
pub struct CachedArticle {
    pub id: u64,
    pub title: String,
    pub url: String,
    pub publish_time: String,
}

/// The view of a [`CachedArticle`]: the view of the article it keeps.
impl View for CachedArticle {
    type V = ArticleView;

    open spec fn view(&self) -> ArticleView {
        ArticleView {
            id: self.id,
            title: self.title@,
            publish_time: self.publish_time@,
            url: self.url@,
        }
    }
}

/// The cache entries of `articles`, one for each in the same order.
pub fn cache_articles(articles: Vec<Article>) -> (r: Vec<CachedArticle>)
    ensures
        r@.len() == articles@.len(),
        forall|i: int| 0 <= i < r@.len() ==> (#[trigger] r@[i])@ == articles@[i]@,
{
    let mut articles = articles;
    let ghost input = articles@;
    let mut r: Vec<CachedArticle> = Vec::new();
    let mut rest: Vec<Article> = Vec::new();
    while articles.len() > 0
        invariant
            r@.len() + articles@.len() == input.len(),
            forall|i: int| 0 <= i < r@.len() ==> (#[trigger] r@[i])@ == input[i]@,
            forall|i: int| 0 <= i < articles@.len() ==> (#[trigger] articles@[i])@ == input[r@.len() + i]@,
        decreases articles@.len(),
    {
        let a = articles.remove(0);
        r.push(CachedArticle { id: a.id, title: a.title, url: a.url, publish_time: a.publish_time });
    }
    r
}

/// Why a cached article could not be found.
#[derive(Debug, Clone, PartialEq, Eq)]
pub enum CacheError {
    /// The article is not in the cache; the text says which `list` fills it.
    NotCached(String),
}

/// The message of an article `article_id` missing from the cache of `section`.
pub open spec fn not_cached_spec(section: ArticleSection, article_id: u64) -> Seq<char> {
    section.spec_title() + " id "@ + decimal(article_id as nat)
        + " is not cached; run `nju-cli graduate-school list "@ + section.spec_slug() + "` first"@
}

/// The first article of the cache `cached` of `section` with the ID `article_id`.
pub fn find_cached_article(cached: &[CachedArticle], section: ArticleSection, article_id: u64) -> (r:
    Result<CachedArticle, CacheError>)
    ensures
        match r {
            Ok(a) => a.id == article_id && exists|i: int|
                #![trigger cached@[i]]
                0 <= i < cached@.len() && cached@[i] == a && forall|j: int|
                    0 <= j < i ==> (#[trigger] cached@[j]).id != article_id,
            Err(CacheError::NotCached(m)) => m@ == not_cached_spec(section, article_id)
                && forall|j: int| 0 <= j < cached@.len() ==> (#[trigger] cached@[j]).id != article_id,
        },
{
    let mut i: usize = 0;
    while i < cached.len()
        invariant
            i <= cached@.len(),
            forall|j: int| 0 <= j < i ==> (#[trigger] cached@[j]).id != article_id,
        decreases cached@.len() - i,
    {
        let c = &cached[i];
        if c.id == article_id {
            let a = CachedArticle {
                id: c.id,
                title: c.title.clone(),
                url: c.url.clone(),
                publish_time: c.publish_time.clone(),
            };
            assert(cached@[i as int] == a);
            return Ok(a);
        }
        i += 1;
    }
    let mut m = section.title().to_string();
    m.append(" id ");
    let d = u64_decimal(article_id);
    m.append(string_of(d.as_slice()).as_str());
    m.append(" is not cached; run `nju-cli graduate-school list ");
    m.append(section.slug());
    m.append("` first");
    Err(CacheError::NotCached(m))
}

/// The line printed for an article of a list: its ID, its date where it has
/// one, and its title.
pub open spec fn article_line_spec(a: ArticleView) -> Seq<char> {
    if a.publish_time.len() == 0 {
        decimal(a.id as nat) + " "@ + a.title
    } else {
        decimal(a.id as nat) + " "@ + a.publish_time + " "@ + a.title
    }
}

/// The line printed for `article`.
pub fn article_line(article: &CachedArticle) -> (r: String)
    ensures
        r@ == article_line_spec(article@),
{
    let d = u64_decimal(article.id);
    let mut s = string_of(d.as_slice());
    s.append(" ");
    if !article.publish_time.as_str().is_empty() {
        s.append(article.publish_time.as_str());
        s.append(" ");
    }
    s.append(article.title.as_str());
    s
}

/// The line that lists `section`: its slug, title and first list page.
pub open spec fn section_line_spec(section: ArticleSection) -> Seq<char> {
    "list "@ + section.spec_slug() + " "@ + section.spec_title() + " "@ + section.spec_list_url()
}

/// The line that lists `page`: its slug, title and address.
pub open spec fn page_line_spec(page: InfoPage) -> Seq<char> {
    "page "@ + page.spec_slug() + " "@ + page.spec_title() + " "@ + page.spec_url()
}

/// The lines of `graduate-school columns`: one for every section, then one
/// for every page, in the order the site presents them.
pub fn column_lines() -> (r: Vec<String>)
    ensures
        r@.len() == all_sections().len() + all_pages().len(),
        forall|i: int| 0 <= i < all_sections().len() ==> (#[trigger] r@[i])@ == section_line_spec(all_sections()[i]),
        forall|i: int| 0 <= i < all_pages().len() ==> (#[trigger] r@[all_sections().len() + i])@ == page_line_spec(all_pages()[i]),
{
    let sections = ArticleSection::all();
    let pages = InfoPage::all();
    let mut r: Vec<String> = Vec::new();
    let mut i: usize = 0;
    while i < sections.len()
        invariant
            sections@ == all_sections(),
            i <= sections@.len(),
            r@.len() == i,
            forall|j: int| 0 <= j < i ==> (#[trigger] r@[j])@ == section_line_spec(all_sections()[j]),
        decreases sections@.len() - i,
    {
        let section = sections[i];
        let mut line = "list ".to_string();
        line.append(section.slug());
        line.append(" ");
        line.append(section.title());
        line.append(" ");
        line.append(section.list_url().as_str());
        r.push(line);
        i += 1;
    }
    let mut k: usize = 0;
    while k < pages.len()
        invariant
            sections@ == all_sections(),
            pages@ == all_pages(),
            k <= pages@.len(),
            r@.len() == sections@.len() + k,
            forall|j: int| 0 <= j < sections@.len() ==> (#[trigger] r@[j])@ == section_line_spec(all_sections()[j]),
            forall|j: int| 0 <= j < k ==> (#[trigger] r@[sections@.len() + j])@ == page_line_spec(all_pages()[j]),
        decreases pages@.len() - k,
    {
        let page = pages[k];
        let mut line = "page ".to_string();
        line.append(page.slug());
        line.append(" ");
        line.append(page.title());
        line.append(" ");
        line.append(page.url());
        r.push(line);
        k += 1;
    }
    r
}

} // verus!
