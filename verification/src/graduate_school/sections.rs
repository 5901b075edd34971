//! The article sections and information pages of the graduate school site.

use vstd::prelude::*;
use crate::text::{has_prefix, has_suffix};

verus! {

/// The address that every path of the graduate school site is relative to.
pub open spec fn site_base_url() -> Seq<char> {
    "https://grawww.nju.edu.cn/"@
}

pub const SITE_BASE_URL: &'static str = "https://grawww.nju.edu.cn/";

/// A section of the graduate school site that lists articles.
#[derive(Debug, Clone, Copy, PartialEq, Eq, Structural)]
pub enum ArticleSection {
    Notifications,
    ServiceGuides,
    TrainingRegulations,
    NationalSponsoredPrograms,
    UniversityExchangePrograms,
    TrainingInnovationProjects,
    CombinedMasterDoctor,
    CourseDevelopment,
    TrainingStudentStatus,
    TrainingDownloads,
    DegreeWork,
    SupervisorWork,
    ExcellentTheses,
    DegreeImprovementProgram,
    DegreeDownloads,
    HonoraryDoctors,
    StudentPolicies,
    GraduationCertificates,
    StudentDownloads,
    StudentRegistration,
}

/// Every article section, in the order the site presents them.
pub open spec fn all_sections() -> Seq<ArticleSection> {
    seq![ArticleSection::Notifications, ArticleSection::ServiceGuides, ArticleSection::TrainingRegulations, ArticleSection::NationalSponsoredPrograms, ArticleSection::UniversityExchangePrograms, ArticleSection::TrainingInnovationProjects, ArticleSection::CombinedMasterDoctor, ArticleSection::CourseDevelopment, ArticleSection::TrainingStudentStatus, ArticleSection::TrainingDownloads, ArticleSection::DegreeWork, ArticleSection::SupervisorWork, ArticleSection::ExcellentTheses, ArticleSection::DegreeImprovementProgram, ArticleSection::DegreeDownloads, ArticleSection::HonoraryDoctors, ArticleSection::StudentPolicies, ArticleSection::GraduationCertificates, ArticleSection::StudentDownloads, ArticleSection::StudentRegistration]
}

impl ArticleSection {
    /// The section's title on the site.
    pub open spec fn spec_title(self) -> Seq<char> {
        match self {
            ArticleSection::Notifications => "通知公告"@,
            ArticleSection::ServiceGuides => "办事指南"@,
            ArticleSection::TrainingRegulations => "培养工作：相关规定"@,
            ArticleSection::NationalSponsoredPrograms => "培养工作：国际交流：高水平公派项目"@,
            ArticleSection::UniversityExchangePrograms => "培养工作：国际交流：校级交流项目"@,
            ArticleSection::TrainingInnovationProjects => "培养工作：各类项目：创新工程"@,
            ArticleSection::CombinedMasterDoctor => "培养工作：各类项目：硕博连读"@,
            ArticleSection::CourseDevelopment => "培养工作：各类项目：课程建设"@,
            ArticleSection::TrainingStudentStatus => "培养工作：学籍相关"@,
            ArticleSection::TrainingDownloads => "培养工作：下载专区"@,
            ArticleSection::DegreeWork => "学位与导师：学位工作"@,
            ArticleSection::SupervisorWork => "学位与导师：导师工作"@,
            ArticleSection::ExcellentTheses => "学位与导师：项目管理：优秀学位论文"@,
            ArticleSection::DegreeImprovementProgram => "学位与导师：项目管理：提升计划"@,
            ArticleSection::DegreeDownloads => "学位与导师：下载专区"@,
            ArticleSection::HonoraryDoctors => "学位与导师：名誉博士"@,
            ArticleSection::StudentPolicies => "学籍与奖助管理：相关政策规定"@,
            ArticleSection::GraduationCertificates => "学籍与奖助管理：学籍学历管理：毕业证书"@,
            ArticleSection::StudentDownloads => "学籍与奖助管理：学籍学历管理：下载专区"@,
            ArticleSection::StudentRegistration => "学籍与奖助管理：学籍学历管理：学籍注册"@,
        }
    }

    /// The section's name on the command line and in cache paths.
    pub open spec fn spec_slug(self) -> Seq<char> {
        match self {
            ArticleSection::Notifications => "notifications"@,
            ArticleSection::ServiceGuides => "service-guides"@,
            ArticleSection::TrainingRegulations => "training-regulations"@,
            ArticleSection::NationalSponsoredPrograms => "national-sponsored-programs"@,
            ArticleSection::UniversityExchangePrograms => "university-exchange-programs"@,
            ArticleSection::TrainingInnovationProjects => "training-innovation-projects"@,
            ArticleSection::CombinedMasterDoctor => "combined-master-doctor"@,
            ArticleSection::CourseDevelopment => "course-development"@,
            ArticleSection::TrainingStudentStatus => "training-student-status"@,
            ArticleSection::TrainingDownloads => "training-downloads"@,
            ArticleSection::DegreeWork => "degree-work"@,
            ArticleSection::SupervisorWork => "supervisor-work"@,
            ArticleSection::ExcellentTheses => "excellent-theses"@,
            ArticleSection::DegreeImprovementProgram => "degree-improvement-program"@,
            ArticleSection::DegreeDownloads => "degree-downloads"@,
            ArticleSection::HonoraryDoctors => "honorary-doctors"@,
            ArticleSection::StudentPolicies => "student-policies"@,
            ArticleSection::GraduationCertificates => "graduation-certificates"@,
            ArticleSection::StudentDownloads => "student-downloads"@,
            ArticleSection::StudentRegistration => "student-registration"@,
        }
    }

    /// The directory of the section's article list on the site.
    pub open spec fn spec_list_path(self) -> Seq<char> {
        match self {
            ArticleSection::Notifications => "905"@,
            ArticleSection::ServiceGuides => "906"@,
            ArticleSection::TrainingRegulations => "55625"@,
            ArticleSection::NationalSponsoredPrograms => "55641"@,
            ArticleSection::UniversityExchangePrograms => "55642"@,
            ArticleSection::TrainingInnovationProjects => "55643"@,
            ArticleSection::CombinedMasterDoctor => "55644"@,
            ArticleSection::CourseDevelopment => "55645"@,
            ArticleSection::TrainingStudentStatus => "xjxg"@,
            ArticleSection::TrainingDownloads => "55628"@,
            ArticleSection::DegreeWork => "55018"@,
            ArticleSection::SupervisorWork => "55019"@,
            ArticleSection::ExcellentTheses => "55020"@,
            ArticleSection::DegreeImprovementProgram => "55017"@,
            ArticleSection::DegreeDownloads => "xzzq"@,
            ArticleSection::HonoraryDoctors => "mybs"@,
            ArticleSection::StudentPolicies => "xgzcgd"@,
            ArticleSection::GraduationCertificates => "byzs"@,
            ArticleSection::StudentDownloads => "xzzq_62790"@,
            ArticleSection::StudentRegistration => "xjzc"@,
        }
    }

    /// The section's title on the site.
    pub fn title(self) -> (r: &'static str)
        ensures
            r@ == self.spec_title(),
    {
        match self {
            ArticleSection::Notifications => "通知公告",
            ArticleSection::ServiceGuides => "办事指南",
            ArticleSection::TrainingRegulations => "培养工作：相关规定",
            ArticleSection::NationalSponsoredPrograms => "培养工作：国际交流：高水平公派项目",
            ArticleSection::UniversityExchangePrograms => "培养工作：国际交流：校级交流项目",
            ArticleSection::TrainingInnovationProjects => "培养工作：各类项目：创新工程",
            ArticleSection::CombinedMasterDoctor => "培养工作：各类项目：硕博连读",
            ArticleSection::CourseDevelopment => "培养工作：各类项目：课程建设",
            ArticleSection::TrainingStudentStatus => "培养工作：学籍相关",
            ArticleSection::TrainingDownloads => "培养工作：下载专区",
            ArticleSection::DegreeWork => "学位与导师：学位工作",
            ArticleSection::SupervisorWork => "学位与导师：导师工作",
            ArticleSection::ExcellentTheses => "学位与导师：项目管理：优秀学位论文",
            ArticleSection::DegreeImprovementProgram => "学位与导师：项目管理：提升计划",
            ArticleSection::DegreeDownloads => "学位与导师：下载专区",
            ArticleSection::HonoraryDoctors => "学位与导师：名誉博士",
            ArticleSection::StudentPolicies => "学籍与奖助管理：相关政策规定",
            ArticleSection::GraduationCertificates => "学籍与奖助管理：学籍学历管理：毕业证书",
            ArticleSection::StudentDownloads => "学籍与奖助管理：学籍学历管理：下载专区",
            ArticleSection::StudentRegistration => "学籍与奖助管理：学籍学历管理：学籍注册",
        }
    }

    /// The section's name on the command line and in cache paths.
    pub fn slug(self) -> (r: &'static str)
        ensures
            r@ == self.spec_slug(),
    {
        match self {
            ArticleSection::Notifications => "notifications",
            ArticleSection::ServiceGuides => "service-guides",
            ArticleSection::TrainingRegulations => "training-regulations",
            ArticleSection::NationalSponsoredPrograms => "national-sponsored-programs",
            ArticleSection::UniversityExchangePrograms => "university-exchange-programs",
            ArticleSection::TrainingInnovationProjects => "training-innovation-projects",
            ArticleSection::CombinedMasterDoctor => "combined-master-doctor",
            ArticleSection::CourseDevelopment => "course-development",
            ArticleSection::TrainingStudentStatus => "training-student-status",
            ArticleSection::TrainingDownloads => "training-downloads",
            ArticleSection::DegreeWork => "degree-work",
            ArticleSection::SupervisorWork => "supervisor-work",
            ArticleSection::ExcellentTheses => "excellent-theses",
            ArticleSection::DegreeImprovementProgram => "degree-improvement-program",
            ArticleSection::DegreeDownloads => "degree-downloads",
            ArticleSection::HonoraryDoctors => "honorary-doctors",
            ArticleSection::StudentPolicies => "student-policies",
            ArticleSection::GraduationCertificates => "graduation-certificates",
            ArticleSection::StudentDownloads => "student-downloads",
            ArticleSection::StudentRegistration => "student-registration",
        }
    }

    /// The directory of the section's article list on the site.
    pub(crate) fn list_path(self) -> (r: &'static str)
        ensures
            r@ == self.spec_list_path(),
    {
        match self {
            ArticleSection::Notifications => "905",
            ArticleSection::ServiceGuides => "906",
            ArticleSection::TrainingRegulations => "55625",
            ArticleSection::NationalSponsoredPrograms => "55641",
            ArticleSection::UniversityExchangePrograms => "55642",
            ArticleSection::TrainingInnovationProjects => "55643",
            ArticleSection::CombinedMasterDoctor => "55644",
            ArticleSection::CourseDevelopment => "55645",
            ArticleSection::TrainingStudentStatus => "xjxg",
            ArticleSection::TrainingDownloads => "55628",
            ArticleSection::DegreeWork => "55018",
            ArticleSection::SupervisorWork => "55019",
            ArticleSection::ExcellentTheses => "55020",
            ArticleSection::DegreeImprovementProgram => "55017",
            ArticleSection::DegreeDownloads => "xzzq",
            ArticleSection::HonoraryDoctors => "mybs",
            ArticleSection::StudentPolicies => "xgzcgd",
            ArticleSection::GraduationCertificates => "byzs",
            ArticleSection::StudentDownloads => "xzzq_62790",
            ArticleSection::StudentRegistration => "xjzc",
        }
    }

    /// The address of the section's first article list page.
    pub open spec fn spec_list_url(self) -> Seq<char> {
        site_base_url() + self.spec_list_path() + "/list.htm"@
    }

    /// The address of the section's first article list page.
    pub fn list_url(self) -> (r: String)
        ensures
            r@ == self.spec_list_url(),
    {
        let mut url = String::from_str(SITE_BASE_URL);
        url.append(self.list_path());
        url.append("/list.htm");
        url
    }

    /// Every article section, in the order the site presents them.
    pub fn all() -> (r: Vec<ArticleSection>)
        ensures
            r@ == all_sections(),
    {
        let r = vec![ArticleSection::Notifications, ArticleSection::ServiceGuides, ArticleSection::TrainingRegulations, ArticleSection::NationalSponsoredPrograms, ArticleSection::UniversityExchangePrograms, ArticleSection::TrainingInnovationProjects, ArticleSection::CombinedMasterDoctor, ArticleSection::CourseDevelopment, ArticleSection::TrainingStudentStatus, ArticleSection::TrainingDownloads, ArticleSection::DegreeWork, ArticleSection::SupervisorWork, ArticleSection::ExcellentTheses, ArticleSection::DegreeImprovementProgram, ArticleSection::DegreeDownloads, ArticleSection::HonoraryDoctors, ArticleSection::StudentPolicies, ArticleSection::GraduationCertificates, ArticleSection::StudentDownloads, ArticleSection::StudentRegistration];
        assert(r@ == all_sections());
        r
    }
}

/// A fixed information page of the graduate school site.
#[derive(Debug, Clone, Copy, PartialEq, Eq, Structural)]
pub enum InfoPage {
    GraduateSchoolIntroduction,
    DepartmentLeaders,
    GeneralOffice,
    AdmissionsOffice,
    TrainingOffice,
    DevelopmentOffice,
    DegreeOffice,
    StudentAffairsOffice,
    SuzhouOffice,
    DegreeCommittee,
    CompletionCertificates,
    StudentStatusChanges,
}

/// Every information page, in the order the site presents them.
pub open spec fn all_pages() -> Seq<InfoPage> {
    seq![InfoPage::GraduateSchoolIntroduction, InfoPage::DepartmentLeaders, InfoPage::GeneralOffice, InfoPage::AdmissionsOffice, InfoPage::TrainingOffice, InfoPage::DevelopmentOffice, InfoPage::DegreeOffice, InfoPage::StudentAffairsOffice, InfoPage::SuzhouOffice, InfoPage::DegreeCommittee, InfoPage::CompletionCertificates, InfoPage::StudentStatusChanges]
}

impl InfoPage {
    /// The page's title on the site.
    pub open spec fn spec_title(self) -> Seq<char> {
        match self {
            InfoPage::GraduateSchoolIntroduction => "机构简介：研究生院简介"@,
            InfoPage::DepartmentLeaders => "机构简介：部门领导"@,
            InfoPage::GeneralOffice => "机构简介：机构设置：综合办公室"@,
            InfoPage::AdmissionsOffice => "机构简介：机构设置：招生办公室"@,
            InfoPage::TrainingOffice => "机构简介：机构设置：培养办公室"@,
            InfoPage::DevelopmentOffice => "机构简介：机构设置：发展办公室"@,
            InfoPage::DegreeOffice => "机构简介：机构设置：学位办公室"@,
            InfoPage::StudentAffairsOffice => "机构简介：机构设置：学籍与奖助管理办公室"@,
            InfoPage::SuzhouOffice => "机构简介：机构设置：苏州校区办公室（苏州研究生院）"@,
            InfoPage::DegreeCommittee => "学位与导师：学位评定委员会"@,
            InfoPage::CompletionCertificates => "学籍与奖助管理：学籍学历管理：结业证书"@,
            InfoPage::StudentStatusChanges => "学籍与奖助管理：学籍学历管理：学籍异动"@,
        }
    }

    /// The page's name on the command line.
    pub open spec fn spec_slug(self) -> Seq<char> {
        match self {
            InfoPage::GraduateSchoolIntroduction => "graduate-school-introduction"@,
            InfoPage::DepartmentLeaders => "department-leaders"@,
            InfoPage::GeneralOffice => "general-office"@,
            InfoPage::AdmissionsOffice => "admissions-office"@,
            InfoPage::TrainingOffice => "training-office"@,
            InfoPage::DevelopmentOffice => "development-office"@,
            InfoPage::DegreeOffice => "degree-office"@,
            InfoPage::StudentAffairsOffice => "student-affairs-office"@,
            InfoPage::SuzhouOffice => "suzhou-office"@,
            InfoPage::DegreeCommittee => "degree-committee"@,
            InfoPage::CompletionCertificates => "completion-certificates"@,
            InfoPage::StudentStatusChanges => "student-status-changes"@,
        }
    }

    /// The page's address.
    pub open spec fn spec_url(self) -> Seq<char> {
        match self {
            InfoPage::GraduateSchoolIntroduction => "https://grawww.nju.edu.cn/55005/list.htm"@,
            InfoPage::DepartmentLeaders => "https://grawww.nju.edu.cn/55006/list.htm"@,
            InfoPage::GeneralOffice => "https://grawww.nju.edu.cn/zhbgs/list.htm"@,
            InfoPage::AdmissionsOffice => "https://grawww.nju.edu.cn/30199/list.htm"@,
            InfoPage::TrainingOffice => "https://grawww.nju.edu.cn/30200/list.htm"@,
            InfoPage::DevelopmentOffice => "https://grawww.nju.edu.cn/61977/list.htm"@,
            InfoPage::DegreeOffice => "https://grawww.nju.edu.cn/30202/list.htm"@,
            InfoPage::StudentAffairsOffice => "https://grawww.nju.edu.cn/61978/list.htm"@,
            InfoPage::SuzhouOffice => "https://grawww.nju.edu.cn/szxqbgs/list.htm"@,
            InfoPage::DegreeCommittee => "https://grawww.nju.edu.cn/55021/list.htm"@,
            InfoPage::CompletionCertificates => "https://grawww.nju.edu.cn/jyzs/list.htm"@,
            InfoPage::StudentStatusChanges => "https://grawww.nju.edu.cn/xjyd/list.htm"@,
        }
    }

    /// The page's title on the site.
    pub fn title(self) -> (r: &'static str)
        ensures
            r@ == self.spec_title(),
    {
        match self {
            InfoPage::GraduateSchoolIntroduction => "机构简介：研究生院简介",
            InfoPage::DepartmentLeaders => "机构简介：部门领导",
            InfoPage::GeneralOffice => "机构简介：机构设置：综合办公室",
            InfoPage::AdmissionsOffice => "机构简介：机构设置：招生办公室",
            InfoPage::TrainingOffice => "机构简介：机构设置：培养办公室",
            InfoPage::DevelopmentOffice => "机构简介：机构设置：发展办公室",
            InfoPage::DegreeOffice => "机构简介：机构设置：学位办公室",
            InfoPage::StudentAffairsOffice => "机构简介：机构设置：学籍与奖助管理办公室",
            InfoPage::SuzhouOffice => "机构简介：机构设置：苏州校区办公室（苏州研究生院）",
            InfoPage::DegreeCommittee => "学位与导师：学位评定委员会",
            InfoPage::CompletionCertificates => "学籍与奖助管理：学籍学历管理：结业证书",
            InfoPage::StudentStatusChanges => "学籍与奖助管理：学籍学历管理：学籍异动",
        }
    }

    /// The page's name on the command line.
    pub fn slug(self) -> (r: &'static str)
        ensures
            r@ == self.spec_slug(),
    {
        match self {
            InfoPage::GraduateSchoolIntroduction => "graduate-school-introduction",
            InfoPage::DepartmentLeaders => "department-leaders",
            InfoPage::GeneralOffice => "general-office",
            InfoPage::AdmissionsOffice => "admissions-office",
            InfoPage::TrainingOffice => "training-office",
            InfoPage::DevelopmentOffice => "development-office",
            InfoPage::DegreeOffice => "degree-office",
            InfoPage::StudentAffairsOffice => "student-affairs-office",
            InfoPage::SuzhouOffice => "suzhou-office",
            InfoPage::DegreeCommittee => "degree-committee",
            InfoPage::CompletionCertificates => "completion-certificates",
            InfoPage::StudentStatusChanges => "student-status-changes",
        }
    }

    /// The page's address.
    pub fn url(self) -> (r: &'static str)
        ensures
            r@ == self.spec_url(),
    {
        match self {
            InfoPage::GraduateSchoolIntroduction => "https://grawww.nju.edu.cn/55005/list.htm",
            InfoPage::DepartmentLeaders => "https://grawww.nju.edu.cn/55006/list.htm",
            InfoPage::GeneralOffice => "https://grawww.nju.edu.cn/zhbgs/list.htm",
            InfoPage::AdmissionsOffice => "https://grawww.nju.edu.cn/30199/list.htm",
            InfoPage::TrainingOffice => "https://grawww.nju.edu.cn/30200/list.htm",
            InfoPage::DevelopmentOffice => "https://grawww.nju.edu.cn/61977/list.htm",
            InfoPage::DegreeOffice => "https://grawww.nju.edu.cn/30202/list.htm",
            InfoPage::StudentAffairsOffice => "https://grawww.nju.edu.cn/61978/list.htm",
            InfoPage::SuzhouOffice => "https://grawww.nju.edu.cn/szxqbgs/list.htm",
            InfoPage::DegreeCommittee => "https://grawww.nju.edu.cn/55021/list.htm",
            InfoPage::CompletionCertificates => "https://grawww.nju.edu.cn/jyzs/list.htm",
            InfoPage::StudentStatusChanges => "https://grawww.nju.edu.cn/xjyd/list.htm",
        }
    }

    /// Every information page, in the order the site presents them.
    pub fn all() -> (r: Vec<InfoPage>)
        ensures
            r@ == all_pages(),
    {
        let r = vec![InfoPage::GraduateSchoolIntroduction, InfoPage::DepartmentLeaders, InfoPage::GeneralOffice, InfoPage::AdmissionsOffice, InfoPage::TrainingOffice, InfoPage::DevelopmentOffice, InfoPage::DegreeOffice, InfoPage::StudentAffairsOffice, InfoPage::SuzhouOffice, InfoPage::DegreeCommittee, InfoPage::CompletionCertificates, InfoPage::StudentStatusChanges];
        assert(r@ == all_pages());
        r
    }
}

/// The section whose slug is `s`.
pub open spec fn section_of_slug(s: Seq<char>) -> Option<ArticleSection> {
    if s == "notifications"@ {
        Some(ArticleSection::Notifications)
    } else if s == "service-guides"@ {
        Some(ArticleSection::ServiceGuides)
    } else if s == "training-regulations"@ {
        Some(ArticleSection::TrainingRegulations)
    } else if s == "national-sponsored-programs"@ {
        Some(ArticleSection::NationalSponsoredPrograms)
    } else if s == "university-exchange-programs"@ {
        Some(ArticleSection::UniversityExchangePrograms)
    } else if s == "training-innovation-projects"@ {
        Some(ArticleSection::TrainingInnovationProjects)
    } else if s == "combined-master-doctor"@ {
        Some(ArticleSection::CombinedMasterDoctor)
    } else if s == "course-development"@ {
        Some(ArticleSection::CourseDevelopment)
    } else if s == "training-student-status"@ {
        Some(ArticleSection::TrainingStudentStatus)
    } else if s == "training-downloads"@ {
        Some(ArticleSection::TrainingDownloads)
    } else if s == "degree-work"@ {
        Some(ArticleSection::DegreeWork)
    } else if s == "supervisor-work"@ {
        Some(ArticleSection::SupervisorWork)
    } else if s == "excellent-theses"@ {
        Some(ArticleSection::ExcellentTheses)
    } else if s == "degree-improvement-program"@ {
        Some(ArticleSection::DegreeImprovementProgram)
    } else if s == "degree-downloads"@ {
        Some(ArticleSection::DegreeDownloads)
    } else if s == "honorary-doctors"@ {
        Some(ArticleSection::HonoraryDoctors)
    } else if s == "student-policies"@ {
        Some(ArticleSection::StudentPolicies)
    } else if s == "graduation-certificates"@ {
        Some(ArticleSection::GraduationCertificates)
    } else if s == "student-downloads"@ {
        Some(ArticleSection::StudentDownloads)
    } else if s == "student-registration"@ {
        Some(ArticleSection::StudentRegistration)
    } else {
        None
    }
}

/// Reading a section's slug back gives the section.
pub proof fn lemma_section_of_slug(a: ArticleSection)
    ensures
        section_of_slug(a.spec_slug()) == Some(a),
{
    reveal_strlit("combined-master-doctor");
    reveal_strlit("course-development");
    reveal_strlit("degree-downloads");
    reveal_strlit("degree-improvement-program");
    reveal_strlit("degree-work");
    reveal_strlit("excellent-theses");
    reveal_strlit("graduation-certificates");
    reveal_strlit("honorary-doctors");
    reveal_strlit("national-sponsored-programs");
    reveal_strlit("notifications");
    reveal_strlit("service-guides");
    reveal_strlit("student-downloads");
    reveal_strlit("student-policies");
    reveal_strlit("student-registration");
    reveal_strlit("supervisor-work");
    reveal_strlit("training-downloads");
    reveal_strlit("training-innovation-projects");
    reveal_strlit("training-regulations");
    reveal_strlit("training-student-status");
    reveal_strlit("university-exchange-programs");
    match a {
        ArticleSection::Notifications => {},
        ArticleSection::ServiceGuides => {
            assert("service-guides"@.len() == 14);
            assert("notifications"@.len() == 13);
        },
        ArticleSection::TrainingRegulations => {
            assert("training-regulations"@.len() == 20);
            assert("notifications"@.len() == 13);
            assert("service-guides"@.len() == 14);
        },
        ArticleSection::NationalSponsoredPrograms => {
            assert("national-sponsored-programs"@.len() == 27);
            assert("notifications"@.len() == 13);
            assert("service-guides"@.len() == 14);
            assert("training-regulations"@.len() == 20);
        },
        ArticleSection::UniversityExchangePrograms => {
            assert("university-exchange-programs"@.len() == 28);
            assert("notifications"@.len() == 13);
            assert("service-guides"@.len() == 14);
            assert("training-regulations"@.len() == 20);
            assert("national-sponsored-programs"@.len() == 27);
        },
        ArticleSection::TrainingInnovationProjects => {
            assert("training-innovation-projects"@.len() == 28);
            assert("notifications"@.len() == 13);
            assert("service-guides"@.len() == 14);
            assert("training-regulations"@.len() == 20);
            assert("national-sponsored-programs"@.len() == 27);
            assert("training-innovation-projects"@[0] == 't' && "university-exchange-programs"@[0] == 'u');
        },
        ArticleSection::CombinedMasterDoctor => {
            assert("combined-master-doctor"@.len() == 22);
            assert("notifications"@.len() == 13);
            assert("service-guides"@.len() == 14);
            assert("training-regulations"@.len() == 20);
            assert("national-sponsored-programs"@.len() == 27);
            assert("university-exchange-programs"@.len() == 28);
            assert("training-innovation-projects"@.len() == 28);
        },
        ArticleSection::CourseDevelopment => {
            assert("course-development"@.len() == 18);
            assert("notifications"@.len() == 13);
            assert("service-guides"@.len() == 14);
            assert("training-regulations"@.len() == 20);
            assert("national-sponsored-programs"@.len() == 27);
            assert("university-exchange-programs"@.len() == 28);
            assert("training-innovation-projects"@.len() == 28);
            assert("combined-master-doctor"@.len() == 22);
        },
        ArticleSection::TrainingStudentStatus => {
            assert("training-student-status"@.len() == 23);
            assert("notifications"@.len() == 13);
            assert("service-guides"@.len() == 14);
            assert("training-regulations"@.len() == 20);
            assert("national-sponsored-programs"@.len() == 27);
            assert("university-exchange-programs"@.len() == 28);
            assert("training-innovation-projects"@.len() == 28);
            assert("combined-master-doctor"@.len() == 22);
            assert("course-development"@.len() == 18);
        },
        ArticleSection::TrainingDownloads => {
            assert("training-downloads"@.len() == 18);
            assert("notifications"@.len() == 13);
            assert("service-guides"@.len() == 14);
            assert("training-regulations"@.len() == 20);
            assert("national-sponsored-programs"@.len() == 27);
            assert("university-exchange-programs"@.len() == 28);
            assert("training-innovation-projects"@.len() == 28);
            assert("combined-master-doctor"@.len() == 22);
            assert("training-downloads"@[0] == 't' && "course-development"@[0] == 'c');
            assert("training-student-status"@.len() == 23);
        },
        ArticleSection::DegreeWork => {
            assert("degree-work"@.len() == 11);
            assert("notifications"@.len() == 13);
            assert("service-guides"@.len() == 14);
            assert("training-regulations"@.len() == 20);
            assert("national-sponsored-programs"@.len() == 27);
            assert("university-exchange-programs"@.len() == 28);
            assert("training-innovation-projects"@.len() == 28);
            assert("combined-master-doctor"@.len() == 22);
            assert("course-development"@.len() == 18);
            assert("training-student-status"@.len() == 23);
            assert("training-downloads"@.len() == 18);
        },
        ArticleSection::SupervisorWork => {
            assert("supervisor-work"@.len() == 15);
            assert("notifications"@.len() == 13);
            assert("service-guides"@.len() == 14);
            assert("training-regulations"@.len() == 20);
            assert("national-sponsored-programs"@.len() == 27);
            assert("university-exchange-programs"@.len() == 28);
            assert("training-innovation-projects"@.len() == 28);
            assert("combined-master-doctor"@.len() == 22);
            assert("course-development"@.len() == 18);
            assert("training-student-status"@.len() == 23);
            assert("training-downloads"@.len() == 18);
            assert("degree-work"@.len() == 11);
        },
        ArticleSection::ExcellentTheses => {
            assert("excellent-theses"@.len() == 16);
            assert("notifications"@.len() == 13);
            assert("service-guides"@.len() == 14);
            assert("training-regulations"@.len() == 20);
            assert("national-sponsored-programs"@.len() == 27);
            assert("university-exchange-programs"@.len() == 28);
            assert("training-innovation-projects"@.len() == 28);
            assert("combined-master-doctor"@.len() == 22);
            assert("course-development"@.len() == 18);
            assert("training-student-status"@.len() == 23);
            assert("training-downloads"@.len() == 18);
            assert("degree-work"@.len() == 11);
            assert("supervisor-work"@.len() == 15);
        },
        ArticleSection::DegreeImprovementProgram => {
            assert("degree-improvement-program"@.len() == 26);
            assert("notifications"@.len() == 13);
            assert("service-guides"@.len() == 14);
            assert("training-regulations"@.len() == 20);
            assert("national-sponsored-programs"@.len() == 27);
            assert("university-exchange-programs"@.len() == 28);
            assert("training-innovation-projects"@.len() == 28);
            assert("combined-master-doctor"@.len() == 22);
            assert("course-development"@.len() == 18);
            assert("training-student-status"@.len() == 23);
            assert("training-downloads"@.len() == 18);
            assert("degree-work"@.len() == 11);
            assert("supervisor-work"@.len() == 15);
            assert("excellent-theses"@.len() == 16);
        },
        ArticleSection::DegreeDownloads => {
            assert("degree-downloads"@.len() == 16);
            assert("notifications"@.len() == 13);
            assert("service-guides"@.len() == 14);
            assert("training-regulations"@.len() == 20);
            assert("national-sponsored-programs"@.len() == 27);
            assert("university-exchange-programs"@.len() == 28);
            assert("training-innovation-projects"@.len() == 28);
            assert("combined-master-doctor"@.len() == 22);
            assert("course-development"@.len() == 18);
            assert("training-student-status"@.len() == 23);
            assert("training-downloads"@.len() == 18);
            assert("degree-work"@.len() == 11);
            assert("supervisor-work"@.len() == 15);
            assert("degree-downloads"@[0] == 'd' && "excellent-theses"@[0] == 'e');
            assert("degree-improvement-program"@.len() == 26);
        },
        ArticleSection::HonoraryDoctors => {
            assert("honorary-doctors"@.len() == 16);
            assert("notifications"@.len() == 13);
            assert("service-guides"@.len() == 14);
            assert("training-regulations"@.len() == 20);
            assert("national-sponsored-programs"@.len() == 27);
            assert("university-exchange-programs"@.len() == 28);
            assert("training-innovation-projects"@.len() == 28);
            assert("combined-master-doctor"@.len() == 22);
            assert("course-development"@.len() == 18);
            assert("training-student-status"@.len() == 23);
            assert("training-downloads"@.len() == 18);
            assert("degree-work"@.len() == 11);
            assert("supervisor-work"@.len() == 15);
            assert("honorary-doctors"@[0] == 'h' && "excellent-theses"@[0] == 'e');
            assert("degree-improvement-program"@.len() == 26);
            assert("honorary-doctors"@[0] == 'h' && "degree-downloads"@[0] == 'd');
        },
        ArticleSection::StudentPolicies => {
            assert("student-policies"@.len() == 16);
            assert("notifications"@.len() == 13);
            assert("service-guides"@.len() == 14);
            assert("training-regulations"@.len() == 20);
            assert("national-sponsored-programs"@.len() == 27);
            assert("university-exchange-programs"@.len() == 28);
            assert("training-innovation-projects"@.len() == 28);
            assert("combined-master-doctor"@.len() == 22);
            assert("course-development"@.len() == 18);
            assert("training-student-status"@.len() == 23);
            assert("training-downloads"@.len() == 18);
            assert("degree-work"@.len() == 11);
            assert("supervisor-work"@.len() == 15);
            assert("student-policies"@[0] == 's' && "excellent-theses"@[0] == 'e');
            assert("degree-improvement-program"@.len() == 26);
            assert("student-policies"@[0] == 's' && "degree-downloads"@[0] == 'd');
            assert("student-policies"@[0] == 's' && "honorary-doctors"@[0] == 'h');
        },
        ArticleSection::GraduationCertificates => {
            assert("graduation-certificates"@.len() == 23);
            assert("notifications"@.len() == 13);
            assert("service-guides"@.len() == 14);
            assert("training-regulations"@.len() == 20);
            assert("national-sponsored-programs"@.len() == 27);
            assert("university-exchange-programs"@.len() == 28);
            assert("training-innovation-projects"@.len() == 28);
            assert("combined-master-doctor"@.len() == 22);
            assert("course-development"@.len() == 18);
            assert("graduation-certificates"@[0] == 'g' && "training-student-status"@[0] == 't');
            assert("training-downloads"@.len() == 18);
            assert("degree-work"@.len() == 11);
            assert("supervisor-work"@.len() == 15);
            assert("excellent-theses"@.len() == 16);
            assert("degree-improvement-program"@.len() == 26);
            assert("degree-downloads"@.len() == 16);
            assert("honorary-doctors"@.len() == 16);
            assert("student-policies"@.len() == 16);
        },
        ArticleSection::StudentDownloads => {
            assert("student-downloads"@.len() == 17);
            assert("notifications"@.len() == 13);
            assert("service-guides"@.len() == 14);
            assert("training-regulations"@.len() == 20);
            assert("national-sponsored-programs"@.len() == 27);
            assert("university-exchange-programs"@.len() == 28);
            assert("training-innovation-projects"@.len() == 28);
            assert("combined-master-doctor"@.len() == 22);
            assert("course-development"@.len() == 18);
            assert("training-student-status"@.len() == 23);
            assert("training-downloads"@.len() == 18);
            assert("degree-work"@.len() == 11);
            assert("supervisor-work"@.len() == 15);
            assert("excellent-theses"@.len() == 16);
            assert("degree-improvement-program"@.len() == 26);
            assert("degree-downloads"@.len() == 16);
            assert("honorary-doctors"@.len() == 16);
            assert("student-policies"@.len() == 16);
            assert("graduation-certificates"@.len() == 23);
        },
        ArticleSection::StudentRegistration => {
            assert("student-registration"@.len() == 20);
            assert("notifications"@.len() == 13);
            assert("service-guides"@.len() == 14);
            assert("student-registration"@[0] == 's' && "training-regulations"@[0] == 't');
            assert("national-sponsored-programs"@.len() == 27);
            assert("university-exchange-programs"@.len() == 28);
            assert("training-innovation-projects"@.len() == 28);
            assert("combined-master-doctor"@.len() == 22);
            assert("course-development"@.len() == 18);
            assert("training-student-status"@.len() == 23);
            assert("training-downloads"@.len() == 18);
            assert("degree-work"@.len() == 11);
            assert("supervisor-work"@.len() == 15);
            assert("excellent-theses"@.len() == 16);
            assert("degree-improvement-program"@.len() == 26);
            assert("degree-downloads"@.len() == 16);
            assert("honorary-doctors"@.len() == 16);
            assert("student-policies"@.len() == 16);
            assert("graduation-certificates"@.len() == 23);
            assert("student-downloads"@.len() == 17);
        },
    }
}

/// The section whose title is `s`.
pub open spec fn section_of_title(s: Seq<char>) -> Option<ArticleSection> {
    if s == "通知公告"@ {
        Some(ArticleSection::Notifications)
    } else if s == "办事指南"@ {
        Some(ArticleSection::ServiceGuides)
    } else if s == "培养工作：相关规定"@ {
        Some(ArticleSection::TrainingRegulations)
    } else if s == "培养工作：国际交流：高水平公派项目"@ {
        Some(ArticleSection::NationalSponsoredPrograms)
    } else if s == "培养工作：国际交流：校级交流项目"@ {
        Some(ArticleSection::UniversityExchangePrograms)
    } else if s == "培养工作：各类项目：创新工程"@ {
        Some(ArticleSection::TrainingInnovationProjects)
    } else if s == "培养工作：各类项目：硕博连读"@ {
        Some(ArticleSection::CombinedMasterDoctor)
    } else if s == "培养工作：各类项目：课程建设"@ {
        Some(ArticleSection::CourseDevelopment)
    } else if s == "培养工作：学籍相关"@ {
        Some(ArticleSection::TrainingStudentStatus)
    } else if s == "培养工作：下载专区"@ {
        Some(ArticleSection::TrainingDownloads)
    } else if s == "学位与导师：学位工作"@ {
        Some(ArticleSection::DegreeWork)
    } else if s == "学位与导师：导师工作"@ {
        Some(ArticleSection::SupervisorWork)
    } else if s == "学位与导师：项目管理：优秀学位论文"@ {
        Some(ArticleSection::ExcellentTheses)
    } else if s == "学位与导师：项目管理：提升计划"@ {
        Some(ArticleSection::DegreeImprovementProgram)
    } else if s == "学位与导师：下载专区"@ {
        Some(ArticleSection::DegreeDownloads)
    } else if s == "学位与导师：名誉博士"@ {
        Some(ArticleSection::HonoraryDoctors)
    } else if s == "学籍与奖助管理：相关政策规定"@ {
        Some(ArticleSection::StudentPolicies)
    } else if s == "学籍与奖助管理：学籍学历管理：毕业证书"@ {
        Some(ArticleSection::GraduationCertificates)
    } else if s == "学籍与奖助管理：学籍学历管理：下载专区"@ {
        Some(ArticleSection::StudentDownloads)
    } else if s == "学籍与奖助管理：学籍学历管理：学籍注册"@ {
        Some(ArticleSection::StudentRegistration)
    } else {
        None
    }
}

/// Reading a section's title back gives the section.
pub proof fn lemma_section_of_title(a: ArticleSection)
    ensures
        section_of_title(a.spec_title()) == Some(a),
{
    reveal_strlit("办事指南");
    reveal_strlit("培养工作：下载专区");
    reveal_strlit("培养工作：各类项目：创新工程");
    reveal_strlit("培养工作：各类项目：硕博连读");
    reveal_strlit("培养工作：各类项目：课程建设");
    reveal_strlit("培养工作：国际交流：校级交流项目");
    reveal_strlit("培养工作：国际交流：高水平公派项目");
    reveal_strlit("培养工作：学籍相关");
    reveal_strlit("培养工作：相关规定");
    reveal_strlit("学位与导师：下载专区");
    reveal_strlit("学位与导师：名誉博士");
    reveal_strlit("学位与导师：学位工作");
    reveal_strlit("学位与导师：导师工作");
    reveal_strlit("学位与导师：项目管理：优秀学位论文");
    reveal_strlit("学位与导师：项目管理：提升计划");
    reveal_strlit("学籍与奖助管理：学籍学历管理：下载专区");
    reveal_strlit("学籍与奖助管理：学籍学历管理：学籍注册");
    reveal_strlit("学籍与奖助管理：学籍学历管理：毕业证书");
    reveal_strlit("学籍与奖助管理：相关政策规定");
    reveal_strlit("通知公告");
    match a {
        ArticleSection::Notifications => {},
        ArticleSection::ServiceGuides => {
            assert("办事指南"@.len() == 4);
            assert("办事指南"@[0] == '办' && "通知公告"@[0] == '通');
        },
        ArticleSection::TrainingRegulations => {
            assert("培养工作：相关规定"@.len() == 9);
            assert("通知公告"@.len() == 4);
            assert("办事指南"@.len() == 4);
        },
        ArticleSection::NationalSponsoredPrograms => {
            assert("培养工作：国际交流：高水平公派项目"@.len() == 17);
            assert("通知公告"@.len() == 4);
            assert("办事指南"@.len() == 4);
            assert("培养工作：相关规定"@.len() == 9);
        },
        ArticleSection::UniversityExchangePrograms => {
            assert("培养工作：国际交流：校级交流项目"@.len() == 16);
            assert("通知公告"@.len() == 4);
            assert("办事指南"@.len() == 4);
            assert("培养工作：相关规定"@.len() == 9);
            assert("培养工作：国际交流：高水平公派项目"@.len() == 17);
        },
        ArticleSection::TrainingInnovationProjects => {
            assert("培养工作：各类项目：创新工程"@.len() == 14);
            assert("通知公告"@.len() == 4);
            assert("办事指南"@.len() == 4);
            assert("培养工作：相关规定"@.len() == 9);
            assert("培养工作：国际交流：高水平公派项目"@.len() == 17);
            assert("培养工作：国际交流：校级交流项目"@.len() == 16);
        },
        ArticleSection::CombinedMasterDoctor => {
            assert("培养工作：各类项目：硕博连读"@.len() == 14);
            assert("通知公告"@.len() == 4);
            assert("办事指南"@.len() == 4);
            assert("培养工作：相关规定"@.len() == 9);
            assert("培养工作：国际交流：高水平公派项目"@.len() == 17);
            assert("培养工作：国际交流：校级交流项目"@.len() == 16);
            assert("培养工作：各类项目：硕博连读"@[10] == '硕' && "培养工作：各类项目：创新工程"@[10] == '创');
        },
        ArticleSection::CourseDevelopment => {
            assert("培养工作：各类项目：课程建设"@.len() == 14);
            assert("通知公告"@.len() == 4);
            assert("办事指南"@.len() == 4);
            assert("培养工作：相关规定"@.len() == 9);
            assert("培养工作：国际交流：高水平公派项目"@.len() == 17);
            assert("培养工作：国际交流：校级交流项目"@.len() == 16);
            assert("培养工作：各类项目：课程建设"@[10] == '课' && "培养工作：各类项目：创新工程"@[10] == '创');
            assert("培养工作：各类项目：课程建设"@[10] == '课' && "培养工作：各类项目：硕博连读"@[10] == '硕');
        },
        ArticleSection::TrainingStudentStatus => {
            assert("培养工作：学籍相关"@.len() == 9);
            assert("通知公告"@.len() == 4);
            assert("办事指南"@.len() == 4);
            assert("培养工作：学籍相关"@[5] == '学' && "培养工作：相关规定"@[5] == '相');
            assert("培养工作：国际交流：高水平公派项目"@.len() == 17);
            assert("培养工作：国际交流：校级交流项目"@.len() == 16);
            assert("培养工作：各类项目：创新工程"@.len() == 14);
            assert("培养工作：各类项目：硕博连读"@.len() == 14);
            assert("培养工作：各类项目：课程建设"@.len() == 14);
        },
        ArticleSection::TrainingDownloads => {
            assert("培养工作：下载专区"@.len() == 9);
            assert("通知公告"@.len() == 4);
            assert("办事指南"@.len() == 4);
            assert("培养工作：下载专区"@[5] == '下' && "培养工作：相关规定"@[5] == '相');
            assert("培养工作：国际交流：高水平公派项目"@.len() == 17);
            assert("培养工作：国际交流：校级交流项目"@.len() == 16);
            assert("培养工作：各类项目：创新工程"@.len() == 14);
            assert("培养工作：各类项目：硕博连读"@.len() == 14);
            assert("培养工作：各类项目：课程建设"@.len() == 14);
            assert("培养工作：下载专区"@[5] == '下' && "培养工作：学籍相关"@[5] == '学');
        },
        ArticleSection::DegreeWork => {
            assert("学位与导师：学位工作"@.len() == 10);
            assert("通知公告"@.len() == 4);
            assert("办事指南"@.len() == 4);
            assert("培养工作：相关规定"@.len() == 9);
            assert("培养工作：国际交流：高水平公派项目"@.len() == 17);
            assert("培养工作：国际交流：校级交流项目"@.len() == 16);
            assert("培养工作：各类项目：创新工程"@.len() == 14);
            assert("培养工作：各类项目：硕博连读"@.len() == 14);
            assert("培养工作：各类项目：课程建设"@.len() == 14);
            assert("培养工作：学籍相关"@.len() == 9);
            assert("培养工作：下载专区"@.len() == 9);
        },
        ArticleSection::SupervisorWork => {
            assert("学位与导师：导师工作"@.len() == 10);
            assert("通知公告"@.len() == 4);
            assert("办事指南"@.len() == 4);
            assert("培养工作：相关规定"@.len() == 9);
            assert("培养工作：国际交流：高水平公派项目"@.len() == 17);
            assert("培养工作：国际交流：校级交流项目"@.len() == 16);
            assert("培养工作：各类项目：创新工程"@.len() == 14);
            assert("培养工作：各类项目：硕博连读"@.len() == 14);
            assert("培养工作：各类项目：课程建设"@.len() == 14);
            assert("培养工作：学籍相关"@.len() == 9);
            assert("培养工作：下载专区"@.len() == 9);
            assert("学位与导师：导师工作"@[6] == '导' && "学位与导师：学位工作"@[6] == '学');
        },
        ArticleSection::ExcellentTheses => {
            assert("学位与导师：项目管理：优秀学位论文"@.len() == 17);
            assert("通知公告"@.len() == 4);
            assert("办事指南"@.len() == 4);
            assert("培养工作：相关规定"@.len() == 9);
            assert("学位与导师：项目管理：优秀学位论文"@[0] == '学' && "培养工作：国际交流：高水平公派项目"@[0] == '培');
            assert("培养工作：国际交流：校级交流项目"@.len() == 16);
            assert("培养工作：各类项目：创新工程"@.len() == 14);
            assert("培养工作：各类项目：硕博连读"@.len() == 14);
            assert("培养工作：各类项目：课程建设"@.len() == 14);
            assert("培养工作：学籍相关"@.len() == 9);
            assert("培养工作：下载专区"@.len() == 9);
            assert("学位与导师：学位工作"@.len() == 10);
            assert("学位与导师：导师工作"@.len() == 10);
        },
        ArticleSection::DegreeImprovementProgram => {
            assert("学位与导师：项目管理：提升计划"@.len() == 15);
            assert("通知公告"@.len() == 4);
            assert("办事指南"@.len() == 4);
            assert("培养工作：相关规定"@.len() == 9);
            assert("培养工作：国际交流：高水平公派项目"@.len() == 17);
            assert("培养工作：国际交流：校级交流项目"@.len() == 16);
            assert("培养工作：各类项目：创新工程"@.len() == 14);
            assert("培养工作：各类项目：硕博连读"@.len() == 14);
            assert("培养工作：各类项目：课程建设"@.len() == 14);
            assert("培养工作：学籍相关"@.len() == 9);
            assert("培养工作：下载专区"@.len() == 9);
            assert("学位与导师：学位工作"@.len() == 10);
            assert("学位与导师：导师工作"@.len() == 10);
            assert("学位与导师：项目管理：优秀学位论文"@.len() == 17);
        },
        ArticleSection::DegreeDownloads => {
            assert("学位与导师：下载专区"@.len() == 10);
            assert("通知公告"@.len() == 4);
            assert("办事指南"@.len() == 4);
            assert("培养工作：相关规定"@.len() == 9);
            assert("培养工作：国际交流：高水平公派项目"@.len() == 17);
            assert("培养工作：国际交流：校级交流项目"@.len() == 16);
            assert("培养工作：各类项目：创新工程"@.len() == 14);
            assert("培养工作：各类项目：硕博连读"@.len() == 14);
            assert("培养工作：各类项目：课程建设"@.len() == 14);
            assert("培养工作：学籍相关"@.len() == 9);
            assert("培养工作：下载专区"@.len() == 9);
            assert("学位与导师：下载专区"@[6] == '下' && "学位与导师：学位工作"@[6] == '学');
            assert("学位与导师：下载专区"@[6] == '下' && "学位与导师：导师工作"@[6] == '导');
            assert("学位与导师：项目管理：优秀学位论文"@.len() == 17);
            assert("学位与导师：项目管理：提升计划"@.len() == 15);
        },
        ArticleSection::HonoraryDoctors => {
            assert("学位与导师：名誉博士"@.len() == 10);
            assert("通知公告"@.len() == 4);
            assert("办事指南"@.len() == 4);
            assert("培养工作：相关规定"@.len() == 9);
            assert("培养工作：国际交流：高水平公派项目"@.len() == 17);
            assert("培养工作：国际交流：校级交流项目"@.len() == 16);
            assert("培养工作：各类项目：创新工程"@.len() == 14);
            assert("培养工作：各类项目：硕博连读"@.len() == 14);
            assert("培养工作：各类项目：课程建设"@.len() == 14);
            assert("培养工作：学籍相关"@.len() == 9);
            assert("培养工作：下载专区"@.len() == 9);
            assert("学位与导师：名誉博士"@[6] == '名' && "学位与导师：学位工作"@[6] == '学');
            assert("学位与导师：名誉博士"@[6] == '名' && "学位与导师：导师工作"@[6] == '导');
            assert("学位与导师：项目管理：优秀学位论文"@.len() == 17);
            assert("学位与导师：项目管理：提升计划"@.len() == 15);
            assert("学位与导师：名誉博士"@[6] == '名' && "学位与导师：下载专区"@[6] == '下');
        },
        ArticleSection::StudentPolicies => {
            assert("学籍与奖助管理：相关政策规定"@.len() == 14);
            assert("通知公告"@.len() == 4);
            assert("办事指南"@.len() == 4);
            assert("培养工作：相关规定"@.len() == 9);
            assert("培养工作：国际交流：高水平公派项目"@.len() == 17);
            assert("培养工作：国际交流：校级交流项目"@.len() == 16);
            assert("学籍与奖助管理：相关政策规定"@[0] == '学' && "培养工作：各类项目：创新工程"@[0] == '培');
            assert("学籍与奖助管理：相关政策规定"@[0] == '学' && "培养工作：各类项目：硕博连读"@[0] == '培');
            assert("学籍与奖助管理：相关政策规定"@[0] == '学' && "培养工作：各类项目：课程建设"@[0] == '培');
            assert("培养工作：学籍相关"@.len() == 9);
            assert("培养工作：下载专区"@.len() == 9);
            assert("学位与导师：学位工作"@.len() == 10);
            assert("学位与导师：导师工作"@.len() == 10);
            assert("学位与导师：项目管理：优秀学位论文"@.len() == 17);
            assert("学位与导师：项目管理：提升计划"@.len() == 15);
            assert("学位与导师：下载专区"@.len() == 10);
            assert("学位与导师：名誉博士"@.len() == 10);
        },
        ArticleSection::GraduationCertificates => {
            assert("学籍与奖助管理：学籍学历管理：毕业证书"@.len() == 19);
            assert("通知公告"@.len() == 4);
            assert("办事指南"@.len() == 4);
            assert("培养工作：相关规定"@.len() == 9);
            assert("培养工作：国际交流：高水平公派项目"@.len() == 17);
            assert("培养工作：国际交流：校级交流项目"@.len() == 16);
            assert("培养工作：各类项目：创新工程"@.len() == 14);
            assert("培养工作：各类项目：硕博连读"@.len() == 14);
            assert("培养工作：各类项目：课程建设"@.len() == 14);
            assert("培养工作：学籍相关"@.len() == 9);
            assert("培养工作：下载专区"@.len() == 9);
            assert("学位与导师：学位工作"@.len() == 10);
            assert("学位与导师：导师工作"@.len() == 10);
            assert("学位与导师：项目管理：优秀学位论文"@.len() == 17);
            assert("学位与导师：项目管理：提升计划"@.len() == 15);
            assert("学位与导师：下载专区"@.len() == 10);
            assert("学位与导师：名誉博士"@.len() == 10);
            assert("学籍与奖助管理：相关政策规定"@.len() == 14);
        },
        ArticleSection::StudentDownloads => {
            assert("学籍与奖助管理：学籍学历管理：下载专区"@.len() == 19);
            assert("通知公告"@.len() == 4);
            assert("办事指南"@.len() == 4);
            assert("培养工作：相关规定"@.len() == 9);
            assert("培养工作：国际交流：高水平公派项目"@.len() == 17);
            assert("培养工作：国际交流：校级交流项目"@.len() == 16);
            assert("培养工作：各类项目：创新工程"@.len() == 14);
            assert("培养工作：各类项目：硕博连读"@.len() == 14);
            assert("培养工作：各类项目：课程建设"@.len() == 14);
            assert("培养工作：学籍相关"@.len() == 9);
            assert("培养工作：下载专区"@.len() == 9);
            assert("学位与导师：学位工作"@.len() == 10);
            assert("学位与导师：导师工作"@.len() == 10);
            assert("学位与导师：项目管理：优秀学位论文"@.len() == 17);
            assert("学位与导师：项目管理：提升计划"@.len() == 15);
            assert("学位与导师：下载专区"@.len() == 10);
            assert("学位与导师：名誉博士"@.len() == 10);
            assert("学籍与奖助管理：相关政策规定"@.len() == 14);
            assert("学籍与奖助管理：学籍学历管理：下载专区"@[15] == '下' && "学籍与奖助管理：学籍学历管理：毕业证书"@[15] == '毕');
        },
        ArticleSection::StudentRegistration => {
            assert("学籍与奖助管理：学籍学历管理：学籍注册"@.len() == 19);
            assert("通知公告"@.len() == 4);
            assert("办事指南"@.len() == 4);
            assert("培养工作：相关规定"@.len() == 9);
            assert("培养工作：国际交流：高水平公派项目"@.len() == 17);
            assert("培养工作：国际交流：校级交流项目"@.len() == 16);
            assert("培养工作：各类项目：创新工程"@.len() == 14);
            assert("培养工作：各类项目：硕博连读"@.len() == 14);
            assert("培养工作：各类项目：课程建设"@.len() == 14);
            assert("培养工作：学籍相关"@.len() == 9);
            assert("培养工作：下载专区"@.len() == 9);
            assert("学位与导师：学位工作"@.len() == 10);
            assert("学位与导师：导师工作"@.len() == 10);
            assert("学位与导师：项目管理：优秀学位论文"@.len() == 17);
            assert("学位与导师：项目管理：提升计划"@.len() == 15);
            assert("学位与导师：下载专区"@.len() == 10);
            assert("学位与导师：名誉博士"@.len() == 10);
            assert("学籍与奖助管理：相关政策规定"@.len() == 14);
            assert("学籍与奖助管理：学籍学历管理：学籍注册"@[15] == '学' && "学籍与奖助管理：学籍学历管理：毕业证书"@[15] == '毕');
            assert("学籍与奖助管理：学籍学历管理：学籍注册"@[15] == '学' && "学籍与奖助管理：学籍学历管理：下载专区"@[15] == '下');
        },
    }
}

/// The information page whose slug is `s`.
pub open spec fn page_of_slug(s: Seq<char>) -> Option<InfoPage> {
    if s == "graduate-school-introduction"@ {
        Some(InfoPage::GraduateSchoolIntroduction)
    } else if s == "department-leaders"@ {
        Some(InfoPage::DepartmentLeaders)
    } else if s == "general-office"@ {
        Some(InfoPage::GeneralOffice)
    } else if s == "admissions-office"@ {
        Some(InfoPage::AdmissionsOffice)
    } else if s == "training-office"@ {
        Some(InfoPage::TrainingOffice)
    } else if s == "development-office"@ {
        Some(InfoPage::DevelopmentOffice)
    } else if s == "degree-office"@ {
        Some(InfoPage::DegreeOffice)
    } else if s == "student-affairs-office"@ {
        Some(InfoPage::StudentAffairsOffice)
    } else if s == "suzhou-office"@ {
        Some(InfoPage::SuzhouOffice)
    } else if s == "degree-committee"@ {
        Some(InfoPage::DegreeCommittee)
    } else if s == "completion-certificates"@ {
        Some(InfoPage::CompletionCertificates)
    } else if s == "student-status-changes"@ {
        Some(InfoPage::StudentStatusChanges)
    } else {
        None
    }
}

/// Reading a page's slug back gives the page.
pub proof fn lemma_page_of_slug(a: InfoPage)
    ensures
        page_of_slug(a.spec_slug()) == Some(a),
{
    reveal_strlit("admissions-office");
    reveal_strlit("completion-certificates");
    reveal_strlit("degree-committee");
    reveal_strlit("degree-office");
    reveal_strlit("department-leaders");
    reveal_strlit("development-office");
    reveal_strlit("general-office");
    reveal_strlit("graduate-school-introduction");
    reveal_strlit("student-affairs-office");
    reveal_strlit("student-status-changes");
    reveal_strlit("suzhou-office");
    reveal_strlit("training-office");
    match a {
        InfoPage::GraduateSchoolIntroduction => {},
        InfoPage::DepartmentLeaders => {
            assert("department-leaders"@.len() == 18);
            assert("graduate-school-introduction"@.len() == 28);
        },
        InfoPage::GeneralOffice => {
            assert("general-office"@.len() == 14);
            assert("graduate-school-introduction"@.len() == 28);
            assert("department-leaders"@.len() == 18);
        },
        InfoPage::AdmissionsOffice => {
            assert("admissions-office"@.len() == 17);
            assert("graduate-school-introduction"@.len() == 28);
            assert("department-leaders"@.len() == 18);
            assert("general-office"@.len() == 14);
        },
        InfoPage::TrainingOffice => {
            assert("training-office"@.len() == 15);
            assert("graduate-school-introduction"@.len() == 28);
            assert("department-leaders"@.len() == 18);
            assert("general-office"@.len() == 14);
            assert("admissions-office"@.len() == 17);
        },
        InfoPage::DevelopmentOffice => {
            assert("development-office"@.len() == 18);
            assert("graduate-school-introduction"@.len() == 28);
            assert("development-office"@[2] == 'v' && "department-leaders"@[2] == 'p');
            assert("general-office"@.len() == 14);
            assert("admissions-office"@.len() == 17);
            assert("training-office"@.len() == 15);
        },
        InfoPage::DegreeOffice => {
            assert("degree-office"@.len() == 13);
            assert("graduate-school-introduction"@.len() == 28);
            assert("department-leaders"@.len() == 18);
            assert("general-office"@.len() == 14);
            assert("admissions-office"@.len() == 17);
            assert("training-office"@.len() == 15);
            assert("development-office"@.len() == 18);
        },
        InfoPage::StudentAffairsOffice => {
            assert("student-affairs-office"@.len() == 22);
            assert("graduate-school-introduction"@.len() == 28);
            assert("department-leaders"@.len() == 18);
            assert("general-office"@.len() == 14);
            assert("admissions-office"@.len() == 17);
            assert("training-office"@.len() == 15);
            assert("development-office"@.len() == 18);
            assert("degree-office"@.len() == 13);
        },
        InfoPage::SuzhouOffice => {
            assert("suzhou-office"@.len() == 13);
            assert("graduate-school-introduction"@.len() == 28);
            assert("department-leaders"@.len() == 18);
            assert("general-office"@.len() == 14);
            assert("admissions-office"@.len() == 17);
            assert("training-office"@.len() == 15);
            assert("development-office"@.len() == 18);
            assert("suzhou-office"@[0] == 's' && "degree-office"@[0] == 'd');
            assert("student-affairs-office"@.len() == 22);
        },
        InfoPage::DegreeCommittee => {
            assert("degree-committee"@.len() == 16);
            assert("graduate-school-introduction"@.len() == 28);
            assert("department-leaders"@.len() == 18);
            assert("general-office"@.len() == 14);
            assert("admissions-office"@.len() == 17);
            assert("training-office"@.len() == 15);
            assert("development-office"@.len() == 18);
            assert("degree-office"@.len() == 13);
            assert("student-affairs-office"@.len() == 22);
            assert("suzhou-office"@.len() == 13);
        },
        InfoPage::CompletionCertificates => {
            assert("completion-certificates"@.len() == 23);
            assert("graduate-school-introduction"@.len() == 28);
            assert("department-leaders"@.len() == 18);
            assert("general-office"@.len() == 14);
            assert("admissions-office"@.len() == 17);
            assert("training-office"@.len() == 15);
            assert("development-office"@.len() == 18);
            assert("degree-office"@.len() == 13);
            assert("student-affairs-office"@.len() == 22);
            assert("suzhou-office"@.len() == 13);
            assert("degree-committee"@.len() == 16);
        },
        InfoPage::StudentStatusChanges => {
            assert("student-status-changes"@.len() == 22);
            assert("graduate-school-introduction"@.len() == 28);
            assert("department-leaders"@.len() == 18);
            assert("general-office"@.len() == 14);
            assert("admissions-office"@.len() == 17);
            assert("training-office"@.len() == 15);
            assert("development-office"@.len() == 18);
            assert("degree-office"@.len() == 13);
            assert("student-status-changes"@[8] == 's' && "student-affairs-office"@[8] == 'a');
            assert("suzhou-office"@.len() == 13);
            assert("degree-committee"@.len() == 16);
            assert("completion-certificates"@.len() == 23);
        },
    }
}

/// The information page whose title is `s`.
pub open spec fn page_of_title(s: Seq<char>) -> Option<InfoPage> {
    if s == "机构简介：研究生院简介"@ {
        Some(InfoPage::GraduateSchoolIntroduction)
    } else if s == "机构简介：部门领导"@ {
        Some(InfoPage::DepartmentLeaders)
    } else if s == "机构简介：机构设置：综合办公室"@ {
        Some(InfoPage::GeneralOffice)
    } else if s == "机构简介：机构设置：招生办公室"@ {
        Some(InfoPage::AdmissionsOffice)
    } else if s == "机构简介：机构设置：培养办公室"@ {
        Some(InfoPage::TrainingOffice)
    } else if s == "机构简介：机构设置：发展办公室"@ {
        Some(InfoPage::DevelopmentOffice)
    } else if s == "机构简介：机构设置：学位办公室"@ {
        Some(InfoPage::DegreeOffice)
    } else if s == "机构简介：机构设置：学籍与奖助管理办公室"@ {
        Some(InfoPage::StudentAffairsOffice)
    } else if s == "机构简介：机构设置：苏州校区办公室（苏州研究生院）"@ {
        Some(InfoPage::SuzhouOffice)
    } else if s == "学位与导师：学位评定委员会"@ {
        Some(InfoPage::DegreeCommittee)
    } else if s == "学籍与奖助管理：学籍学历管理：结业证书"@ {
        Some(InfoPage::CompletionCertificates)
    } else if s == "学籍与奖助管理：学籍学历管理：学籍异动"@ {
        Some(InfoPage::StudentStatusChanges)
    } else {
        None
    }
}

/// Reading a page's title back gives the page.
pub proof fn lemma_page_of_title(a: InfoPage)
    ensures
        page_of_title(a.spec_title()) == Some(a),
{
    reveal_strlit("学位与导师：学位评定委员会");
    reveal_strlit("学籍与奖助管理：学籍学历管理：学籍异动");
    reveal_strlit("学籍与奖助管理：学籍学历管理：结业证书");
    reveal_strlit("机构简介：机构设置：发展办公室");
    reveal_strlit("机构简介：机构设置：培养办公室");
    reveal_strlit("机构简介：机构设置：学位办公室");
    reveal_strlit("机构简介：机构设置：学籍与奖助管理办公室");
    reveal_strlit("机构简介：机构设置：招生办公室");
    reveal_strlit("机构简介：机构设置：综合办公室");
    reveal_strlit("机构简介：机构设置：苏州校区办公室（苏州研究生院）");
    reveal_strlit("机构简介：研究生院简介");
    reveal_strlit("机构简介：部门领导");
    match a {
        InfoPage::GraduateSchoolIntroduction => {},
        InfoPage::DepartmentLeaders => {
            assert("机构简介：部门领导"@.len() == 9);
            assert("机构简介：研究生院简介"@.len() == 11);
        },
        InfoPage::GeneralOffice => {
            assert("机构简介：机构设置：综合办公室"@.len() == 15);
            assert("机构简介：研究生院简介"@.len() == 11);
            assert("机构简介：部门领导"@.len() == 9);
        },
        InfoPage::AdmissionsOffice => {
            assert("机构简介：机构设置：招生办公室"@.len() == 15);
            assert("机构简介：研究生院简介"@.len() == 11);
            assert("机构简介：部门领导"@.len() == 9);
            assert("机构简介：机构设置：招生办公室"@[10] == '招' && "机构简介：机构设置：综合办公室"@[10] == '综');
        },
        InfoPage::TrainingOffice => {
            assert("机构简介：机构设置：培养办公室"@.len() == 15);
            assert("机构简介：研究生院简介"@.len() == 11);
            assert("机构简介：部门领导"@.len() == 9);
            assert("机构简介：机构设置：培养办公室"@[10] == '培' && "机构简介：机构设置：综合办公室"@[10] == '综');
            assert("机构简介：机构设置：培养办公室"@[10] == '培' && "机构简介：机构设置：招生办公室"@[10] == '招');
        },
        InfoPage::DevelopmentOffice => {
            assert("机构简介：机构设置：发展办公室"@.len() == 15);
            assert("机构简介：研究生院简介"@.len() == 11);
            assert("机构简介：部门领导"@.len() == 9);
            assert("机构简介：机构设置：发展办公室"@[10] == '发' && "机构简介：机构设置：综合办公室"@[10] == '综');
            assert("机构简介：机构设置：发展办公室"@[10] == '发' && "机构简介：机构设置：招生办公室"@[10] == '招');
            assert("机构简介：机构设置：发展办公室"@[10] == '发' && "机构简介：机构设置：培养办公室"@[10] == '培');
        },
        InfoPage::DegreeOffice => {
            assert("机构简介：机构设置：学位办公室"@.len() == 15);
            assert("机构简介：研究生院简介"@.len() == 11);
            assert("机构简介：部门领导"@.len() == 9);
            assert("机构简介：机构设置：学位办公室"@[10] == '学' && "机构简介：机构设置：综合办公室"@[10] == '综');
            assert("机构简介：机构设置：学位办公室"@[10] == '学' && "机构简介：机构设置：招生办公室"@[10] == '招');
            assert("机构简介：机构设置：学位办公室"@[10] == '学' && "机构简介：机构设置：培养办公室"@[10] == '培');
            assert("机构简介：机构设置：学位办公室"@[10] == '学' && "机构简介：机构设置：发展办公室"@[10] == '发');
        },
        InfoPage::StudentAffairsOffice => {
            assert("机构简介：机构设置：学籍与奖助管理办公室"@.len() == 20);
            assert("机构简介：研究生院简介"@.len() == 11);
            assert("机构简介：部门领导"@.len() == 9);
            assert("机构简介：机构设置：综合办公室"@.len() == 15);
            assert("机构简介：机构设置：招生办公室"@.len() == 15);
            assert("机构简介：机构设置：培养办公室"@.len() == 15);
            assert("机构简介：机构设置：发展办公室"@.len() == 15);
            assert("机构简介：机构设置：学位办公室"@.len() == 15);
        },
        InfoPage::SuzhouOffice => {
            assert("机构简介：机构设置：苏州校区办公室（苏州研究生院）"@.len() == 25);
            assert("机构简介：研究生院简介"@.len() == 11);
            assert("机构简介：部门领导"@.len() == 9);
            assert("机构简介：机构设置：综合办公室"@.len() == 15);
            assert("机构简介：机构设置：招生办公室"@.len() == 15);
            assert("机构简介：机构设置：培养办公室"@.len() == 15);
            assert("机构简介：机构设置：发展办公室"@.len() == 15);
            assert("机构简介：机构设置：学位办公室"@.len() == 15);
            assert("机构简介：机构设置：学籍与奖助管理办公室"@.len() == 20);
        },
        InfoPage::DegreeCommittee => {
            assert("学位与导师：学位评定委员会"@.len() == 13);
            assert("机构简介：研究生院简介"@.len() == 11);
            assert("机构简介：部门领导"@.len() == 9);
            assert("机构简介：机构设置：综合办公室"@.len() == 15);
            assert("机构简介：机构设置：招生办公室"@.len() == 15);
            assert("机构简介：机构设置：培养办公室"@.len() == 15);
            assert("机构简介：机构设置：发展办公室"@.len() == 15);
            assert("机构简介：机构设置：学位办公室"@.len() == 15);
            assert("机构简介：机构设置：学籍与奖助管理办公室"@.len() == 20);
            assert("机构简介：机构设置：苏州校区办公室（苏州研究生院）"@.len() == 25);
        },
        InfoPage::CompletionCertificates => {
            assert("学籍与奖助管理：学籍学历管理：结业证书"@.len() == 19);
            assert("机构简介：研究生院简介"@.len() == 11);
            assert("机构简介：部门领导"@.len() == 9);
            assert("机构简介：机构设置：综合办公室"@.len() == 15);
            assert("机构简介：机构设置：招生办公室"@.len() == 15);
            assert("机构简介：机构设置：培养办公室"@.len() == 15);
            assert("机构简介：机构设置：发展办公室"@.len() == 15);
            assert("机构简介：机构设置：学位办公室"@.len() == 15);
            assert("机构简介：机构设置：学籍与奖助管理办公室"@.len() == 20);
            assert("机构简介：机构设置：苏州校区办公室（苏州研究生院）"@.len() == 25);
            assert("学位与导师：学位评定委员会"@.len() == 13);
        },
        InfoPage::StudentStatusChanges => {
            assert("学籍与奖助管理：学籍学历管理：学籍异动"@.len() == 19);
            assert("机构简介：研究生院简介"@.len() == 11);
            assert("机构简介：部门领导"@.len() == 9);
            assert("机构简介：机构设置：综合办公室"@.len() == 15);
            assert("机构简介：机构设置：招生办公室"@.len() == 15);
            assert("机构简介：机构设置：培养办公室"@.len() == 15);
            assert("机构简介：机构设置：发展办公室"@.len() == 15);
            assert("机构简介：机构设置：学位办公室"@.len() == 15);
            assert("机构简介：机构设置：学籍与奖助管理办公室"@.len() == 20);
            assert("机构简介：机构设置：苏州校区办公室（苏州研究生院）"@.len() == 25);
            assert("学位与导师：学位评定委员会"@.len() == 13);
            assert("学籍与奖助管理：学籍学历管理：学籍异动"@[15] == '学' && "学籍与奖助管理：学籍学历管理：结业证书"@[15] == '结');
        },
    }
}

/// The section or page listed under the path `s`.
pub open spec fn list_of_path(s: Seq<char>) -> Option<SiteList> {
    if s == "905"@ {
        Some(SiteList::Section(ArticleSection::Notifications))
    } else if s == "906"@ {
        Some(SiteList::Section(ArticleSection::ServiceGuides))
    } else if s == "55625"@ {
        Some(SiteList::Section(ArticleSection::TrainingRegulations))
    } else if s == "55641"@ {
        Some(SiteList::Section(ArticleSection::NationalSponsoredPrograms))
    } else if s == "55642"@ {
        Some(SiteList::Section(ArticleSection::UniversityExchangePrograms))
    } else if s == "55643"@ {
        Some(SiteList::Section(ArticleSection::TrainingInnovationProjects))
    } else if s == "55644"@ {
        Some(SiteList::Section(ArticleSection::CombinedMasterDoctor))
    } else if s == "55645"@ {
        Some(SiteList::Section(ArticleSection::CourseDevelopment))
    } else if s == "xjxg"@ {
        Some(SiteList::Section(ArticleSection::TrainingStudentStatus))
    } else if s == "55628"@ {
        Some(SiteList::Section(ArticleSection::TrainingDownloads))
    } else if s == "55018"@ {
        Some(SiteList::Section(ArticleSection::DegreeWork))
    } else if s == "55019"@ {
        Some(SiteList::Section(ArticleSection::SupervisorWork))
    } else if s == "55020"@ {
        Some(SiteList::Section(ArticleSection::ExcellentTheses))
    } else if s == "55017"@ {
        Some(SiteList::Section(ArticleSection::DegreeImprovementProgram))
    } else if s == "xzzq"@ {
        Some(SiteList::Section(ArticleSection::DegreeDownloads))
    } else if s == "mybs"@ {
        Some(SiteList::Section(ArticleSection::HonoraryDoctors))
    } else if s == "xgzcgd"@ {
        Some(SiteList::Section(ArticleSection::StudentPolicies))
    } else if s == "byzs"@ {
        Some(SiteList::Section(ArticleSection::GraduationCertificates))
    } else if s == "xzzq_62790"@ {
        Some(SiteList::Section(ArticleSection::StudentDownloads))
    } else if s == "xjzc"@ {
        Some(SiteList::Section(ArticleSection::StudentRegistration))
    } else if s == "55005"@ {
        Some(SiteList::Page(InfoPage::GraduateSchoolIntroduction))
    } else if s == "55006"@ {
        Some(SiteList::Page(InfoPage::DepartmentLeaders))
    } else if s == "zhbgs"@ {
        Some(SiteList::Page(InfoPage::GeneralOffice))
    } else if s == "30199"@ {
        Some(SiteList::Page(InfoPage::AdmissionsOffice))
    } else if s == "30200"@ {
        Some(SiteList::Page(InfoPage::TrainingOffice))
    } else if s == "61977"@ {
        Some(SiteList::Page(InfoPage::DevelopmentOffice))
    } else if s == "30202"@ {
        Some(SiteList::Page(InfoPage::DegreeOffice))
    } else if s == "61978"@ {
        Some(SiteList::Page(InfoPage::StudentAffairsOffice))
    } else if s == "szxqbgs"@ {
        Some(SiteList::Page(InfoPage::SuzhouOffice))
    } else if s == "55021"@ {
        Some(SiteList::Page(InfoPage::DegreeCommittee))
    } else if s == "jyzs"@ {
        Some(SiteList::Page(InfoPage::CompletionCertificates))
    } else if s == "xjyd"@ {
        Some(SiteList::Page(InfoPage::StudentStatusChanges))
    } else {
        None
    }
}

/// Reading a section's list path back gives the section.
pub proof fn lemma_list_of_section_path(a: ArticleSection)
    ensures
        list_of_path(a.spec_list_path()) == Some(SiteList::Section(a)),
{
    reveal_strlit("30199");
    reveal_strlit("30200");
    reveal_strlit("30202");
    reveal_strlit("55005");
    reveal_strlit("55006");
    reveal_strlit("55017");
    reveal_strlit("55018");
    reveal_strlit("55019");
    reveal_strlit("55020");
    reveal_strlit("55021");
    reveal_strlit("55625");
    reveal_strlit("55628");
    reveal_strlit("55641");
    reveal_strlit("55642");
    reveal_strlit("55643");
    reveal_strlit("55644");
    reveal_strlit("55645");
    reveal_strlit("61977");
    reveal_strlit("61978");
    reveal_strlit("905");
    reveal_strlit("906");
    reveal_strlit("byzs");
    reveal_strlit("jyzs");
    reveal_strlit("mybs");
    reveal_strlit("szxqbgs");
    reveal_strlit("xgzcgd");
    reveal_strlit("xjxg");
    reveal_strlit("xjyd");
    reveal_strlit("xjzc");
    reveal_strlit("xzzq");
    reveal_strlit("xzzq_62790");
    reveal_strlit("zhbgs");
    match a {
        ArticleSection::Notifications => {},
        ArticleSection::ServiceGuides => {
            assert("906"@.len() == 3);
            assert("906"@[2] == '6' && "905"@[2] == '5');
        },
        ArticleSection::TrainingRegulations => {
            assert("55625"@.len() == 5);
            assert("905"@.len() == 3);
            assert("906"@.len() == 3);
        },
        ArticleSection::NationalSponsoredPrograms => {
            assert("55641"@.len() == 5);
            assert("905"@.len() == 3);
            assert("906"@.len() == 3);
            assert("55641"@[3] == '4' && "55625"@[3] == '2');
        },
        ArticleSection::UniversityExchangePrograms => {
            assert("55642"@.len() == 5);
            assert("905"@.len() == 3);
            assert("906"@.len() == 3);
            assert("55642"@[3] == '4' && "55625"@[3] == '2');
            assert("55642"@[4] == '2' && "55641"@[4] == '1');
        },
        ArticleSection::TrainingInnovationProjects => {
            assert("55643"@.len() == 5);
            assert("905"@.len() == 3);
            assert("906"@.len() == 3);
            assert("55643"@[3] == '4' && "55625"@[3] == '2');
            assert("55643"@[4] == '3' && "55641"@[4] == '1');
            assert("55643"@[4] == '3' && "55642"@[4] == '2');
        },
        ArticleSection::CombinedMasterDoctor => {
            assert("55644"@.len() == 5);
            assert("905"@.len() == 3);
            assert("906"@.len() == 3);
            assert("55644"@[3] == '4' && "55625"@[3] == '2');
            assert("55644"@[4] == '4' && "55641"@[4] == '1');
            assert("55644"@[4] == '4' && "55642"@[4] == '2');
            assert("55644"@[4] == '4' && "55643"@[4] == '3');
        },
        ArticleSection::CourseDevelopment => {
            assert("55645"@.len() == 5);
            assert("905"@.len() == 3);
            assert("906"@.len() == 3);
            assert("55645"@[3] == '4' && "55625"@[3] == '2');
            assert("55645"@[4] == '5' && "55641"@[4] == '1');
            assert("55645"@[4] == '5' && "55642"@[4] == '2');
            assert("55645"@[4] == '5' && "55643"@[4] == '3');
            assert("55645"@[4] == '5' && "55644"@[4] == '4');
        },
        ArticleSection::TrainingStudentStatus => {
            assert("xjxg"@.len() == 4);
            assert("905"@.len() == 3);
            assert("906"@.len() == 3);
            assert("55625"@.len() == 5);
            assert("55641"@.len() == 5);
            assert("55642"@.len() == 5);
            assert("55643"@.len() == 5);
            assert("55644"@.len() == 5);
            assert("55645"@.len() == 5);
        },
        ArticleSection::TrainingDownloads => {
            assert("55628"@.len() == 5);
            assert("905"@.len() == 3);
            assert("906"@.len() == 3);
            assert("55628"@[4] == '8' && "55625"@[4] == '5');
            assert("55628"@[3] == '2' && "55641"@[3] == '4');
            assert("55628"@[3] == '2' && "55642"@[3] == '4');
            assert("55628"@[3] == '2' && "55643"@[3] == '4');
            assert("55628"@[3] == '2' && "55644"@[3] == '4');
            assert("55628"@[3] == '2' && "55645"@[3] == '4');
            assert("xjxg"@.len() == 4);
        },
        ArticleSection::DegreeWork => {
            assert("55018"@.len() == 5);
            assert("905"@.len() == 3);
            assert("906"@.len() == 3);
            assert("55018"@[2] == '0' && "55625"@[2] == '6');
            assert("55018"@[2] == '0' && "55641"@[2] == '6');
            assert("55018"@[2] == '0' && "55642"@[2] == '6');
            assert("55018"@[2] == '0' && "55643"@[2] == '6');
            assert("55018"@[2] == '0' && "55644"@[2] == '6');
            assert("55018"@[2] == '0' && "55645"@[2] == '6');
            assert("xjxg"@.len() == 4);
            assert("55018"@[2] == '0' && "55628"@[2] == '6');
        },
        ArticleSection::SupervisorWork => {
            assert("55019"@.len() == 5);
            assert("905"@.len() == 3);
            assert("906"@.len() == 3);
            assert("55019"@[2] == '0' && "55625"@[2] == '6');
            assert("55019"@[2] == '0' && "55641"@[2] == '6');
            assert("55019"@[2] == '0' && "55642"@[2] == '6');
            assert("55019"@[2] == '0' && "55643"@[2] == '6');
            assert("55019"@[2] == '0' && "55644"@[2] == '6');
            assert("55019"@[2] == '0' && "55645"@[2] == '6');
            assert("xjxg"@.len() == 4);
            assert("55019"@[2] == '0' && "55628"@[2] == '6');
            assert("55019"@[4] == '9' && "55018"@[4] == '8');
        },
        ArticleSection::ExcellentTheses => {
            assert("55020"@.len() == 5);
            assert("905"@.len() == 3);
            assert("906"@.len() == 3);
            assert("55020"@[2] == '0' && "55625"@[2] == '6');
            assert("55020"@[2] == '0' && "55641"@[2] == '6');
            assert("55020"@[2] == '0' && "55642"@[2] == '6');
            assert("55020"@[2] == '0' && "55643"@[2] == '6');
            assert("55020"@[2] == '0' && "55644"@[2] == '6');
            assert("55020"@[2] == '0' && "55645"@[2] == '6');
            assert("xjxg"@.len() == 4);
            assert("55020"@[2] == '0' && "55628"@[2] == '6');
            assert("55020"@[3] == '2' && "55018"@[3] == '1');
            assert("55020"@[3] == '2' && "55019"@[3] == '1');
        },
        ArticleSection::DegreeImprovementProgram => {
            assert("55017"@.len() == 5);
            assert("905"@.len() == 3);
            assert("906"@.len() == 3);
            assert("55017"@[2] == '0' && "55625"@[2] == '6');
            assert("55017"@[2] == '0' && "55641"@[2] == '6');
            assert("55017"@[2] == '0' && "55642"@[2] == '6');
            assert("55017"@[2] == '0' && "55643"@[2] == '6');
            assert("55017"@[2] == '0' && "55644"@[2] == '6');
            assert("55017"@[2] == '0' && "55645"@[2] == '6');
            assert("xjxg"@.len() == 4);
            assert("55017"@[2] == '0' && "55628"@[2] == '6');
            assert("55017"@[4] == '7' && "55018"@[4] == '8');
            assert("55017"@[4] == '7' && "55019"@[4] == '9');
            assert("55017"@[3] == '1' && "55020"@[3] == '2');
        },
        ArticleSection::DegreeDownloads => {
            assert("xzzq"@.len() == 4);
            assert("905"@.len() == 3);
            assert("906"@.len() == 3);
            assert("55625"@.len() == 5);
            assert("55641"@.len() == 5);
            assert("55642"@.len() == 5);
            assert("55643"@.len() == 5);
            assert("55644"@.len() == 5);
            assert("55645"@.len() == 5);
            assert("xzzq"@[1] == 'z' && "xjxg"@[1] == 'j');
            assert("55628"@.len() == 5);
            assert("55018"@.len() == 5);
            assert("55019"@.len() == 5);
            assert("55020"@.len() == 5);
            assert("55017"@.len() == 5);
        },
        ArticleSection::HonoraryDoctors => {
            assert("mybs"@.len() == 4);
            assert("905"@.len() == 3);
            assert("906"@.len() == 3);
            assert("55625"@.len() == 5);
            assert("55641"@.len() == 5);
            assert("55642"@.len() == 5);
            assert("55643"@.len() == 5);
            assert("55644"@.len() == 5);
            assert("55645"@.len() == 5);
            assert("mybs"@[0] == 'm' && "xjxg"@[0] == 'x');
            assert("55628"@.len() == 5);
            assert("55018"@.len() == 5);
            assert("55019"@.len() == 5);
            assert("55020"@.len() == 5);
            assert("55017"@.len() == 5);
            assert("mybs"@[0] == 'm' && "xzzq"@[0] == 'x');
        },
        ArticleSection::StudentPolicies => {
            assert("xgzcgd"@.len() == 6);
            assert("905"@.len() == 3);
            assert("906"@.len() == 3);
            assert("55625"@.len() == 5);
            assert("55641"@.len() == 5);
            assert("55642"@.len() == 5);
            assert("55643"@.len() == 5);
            assert("55644"@.len() == 5);
            assert("55645"@.len() == 5);
            assert("xjxg"@.len() == 4);
            assert("55628"@.len() == 5);
            assert("55018"@.len() == 5);
            assert("55019"@.len() == 5);
            assert("55020"@.len() == 5);
            assert("55017"@.len() == 5);
            assert("xzzq"@.len() == 4);
            assert("mybs"@.len() == 4);
        },
        ArticleSection::GraduationCertificates => {
            assert("byzs"@.len() == 4);
            assert("905"@.len() == 3);
            assert("906"@.len() == 3);
            assert("55625"@.len() == 5);
            assert("55641"@.len() == 5);
            assert("55642"@.len() == 5);
            assert("55643"@.len() == 5);
            assert("55644"@.len() == 5);
            assert("55645"@.len() == 5);
            assert("byzs"@[0] == 'b' && "xjxg"@[0] == 'x');
            assert("55628"@.len() == 5);
            assert("55018"@.len() == 5);
            assert("55019"@.len() == 5);
            assert("55020"@.len() == 5);
            assert("55017"@.len() == 5);
            assert("byzs"@[0] == 'b' && "xzzq"@[0] == 'x');
            assert("byzs"@[0] == 'b' && "mybs"@[0] == 'm');
            assert("xgzcgd"@.len() == 6);
        },
        ArticleSection::StudentDownloads => {
            assert("xzzq_62790"@.len() == 10);
            assert("905"@.len() == 3);
            assert("906"@.len() == 3);
            assert("55625"@.len() == 5);
            assert("55641"@.len() == 5);
            assert("55642"@.len() == 5);
            assert("55643"@.len() == 5);
            assert("55644"@.len() == 5);
            assert("55645"@.len() == 5);
            assert("xjxg"@.len() == 4);
            assert("55628"@.len() == 5);
            assert("55018"@.len() == 5);
            assert("55019"@.len() == 5);
            assert("55020"@.len() == 5);
            assert("55017"@.len() == 5);
            assert("xzzq"@.len() == 4);
            assert("mybs"@.len() == 4);
            assert("xgzcgd"@.len() == 6);
            assert("byzs"@.len() == 4);
        },
        ArticleSection::StudentRegistration => {
            assert("xjzc"@.len() == 4);
            assert("905"@.len() == 3);
            assert("906"@.len() == 3);
            assert("55625"@.len() == 5);
            assert("55641"@.len() == 5);
            assert("55642"@.len() == 5);
            assert("55643"@.len() == 5);
            assert("55644"@.len() == 5);
            assert("55645"@.len() == 5);
            assert("xjzc"@[2] == 'z' && "xjxg"@[2] == 'x');
            assert("55628"@.len() == 5);
            assert("55018"@.len() == 5);
            assert("55019"@.len() == 5);
            assert("55020"@.len() == 5);
            assert("55017"@.len() == 5);
            assert("xjzc"@[1] == 'j' && "xzzq"@[1] == 'z');
            assert("xjzc"@[0] == 'x' && "mybs"@[0] == 'm');
            assert("xgzcgd"@.len() == 6);
            assert("xjzc"@[0] == 'x' && "byzs"@[0] == 'b');
            assert("xzzq_62790"@.len() == 10);
        },
    }
}

/// Reading a page's path back gives the page.
pub proof fn lemma_list_of_page_path(a: InfoPage)
    ensures
        list_of_path(a.spec_path()) == Some(SiteList::Page(a)),
{
    reveal_strlit("30199");
    reveal_strlit("30200");
    reveal_strlit("30202");
    reveal_strlit("55005");
    reveal_strlit("55006");
    reveal_strlit("55017");
    reveal_strlit("55018");
    reveal_strlit("55019");
    reveal_strlit("55020");
    reveal_strlit("55021");
    reveal_strlit("55625");
    reveal_strlit("55628");
    reveal_strlit("55641");
    reveal_strlit("55642");
    reveal_strlit("55643");
    reveal_strlit("55644");
    reveal_strlit("55645");
    reveal_strlit("61977");
    reveal_strlit("61978");
    reveal_strlit("905");
    reveal_strlit("906");
    reveal_strlit("byzs");
    reveal_strlit("jyzs");
    reveal_strlit("mybs");
    reveal_strlit("szxqbgs");
    reveal_strlit("xgzcgd");
    reveal_strlit("xjxg");
    reveal_strlit("xjyd");
    reveal_strlit("xjzc");
    reveal_strlit("xzzq");
    reveal_strlit("xzzq_62790");
    reveal_strlit("zhbgs");
    match a {
        InfoPage::GraduateSchoolIntroduction => {
            assert("55005"@.len() == 5);
            assert("905"@.len() == 3);
            assert("906"@.len() == 3);
            assert("55005"@[2] == '0' && "55625"@[2] == '6');
            assert("55005"@[2] == '0' && "55641"@[2] == '6');
            assert("55005"@[2] == '0' && "55642"@[2] == '6');
            assert("55005"@[2] == '0' && "55643"@[2] == '6');
            assert("55005"@[2] == '0' && "55644"@[2] == '6');
            assert("55005"@[2] == '0' && "55645"@[2] == '6');
            assert("xjxg"@.len() == 4);
            assert("55005"@[2] == '0' && "55628"@[2] == '6');
            assert("55005"@[3] == '0' && "55018"@[3] == '1');
            assert("55005"@[3] == '0' && "55019"@[3] == '1');
            assert("55005"@[3] == '0' && "55020"@[3] == '2');
            assert("55005"@[3] == '0' && "55017"@[3] == '1');
            assert("xzzq"@.len() == 4);
            assert("mybs"@.len() == 4);
            assert("xgzcgd"@.len() == 6);
            assert("byzs"@.len() == 4);
            assert("xzzq_62790"@.len() == 10);
            assert("xjzc"@.len() == 4);
        },
        InfoPage::DepartmentLeaders => {
            assert("55006"@.len() == 5);
            assert("905"@.len() == 3);
            assert("906"@.len() == 3);
            assert("55006"@[2] == '0' && "55625"@[2] == '6');
            assert("55006"@[2] == '0' && "55641"@[2] == '6');
            assert("55006"@[2] == '0' && "55642"@[2] == '6');
            assert("55006"@[2] == '0' && "55643"@[2] == '6');
            assert("55006"@[2] == '0' && "55644"@[2] == '6');
            assert("55006"@[2] == '0' && "55645"@[2] == '6');
            assert("xjxg"@.len() == 4);
            assert("55006"@[2] == '0' && "55628"@[2] == '6');
            assert("55006"@[3] == '0' && "55018"@[3] == '1');
            assert("55006"@[3] == '0' && "55019"@[3] == '1');
            assert("55006"@[3] == '0' && "55020"@[3] == '2');
            assert("55006"@[3] == '0' && "55017"@[3] == '1');
            assert("xzzq"@.len() == 4);
            assert("mybs"@.len() == 4);
            assert("xgzcgd"@.len() == 6);
            assert("byzs"@.len() == 4);
            assert("xzzq_62790"@.len() == 10);
            assert("xjzc"@.len() == 4);
            assert("55006"@[4] == '6' && "55005"@[4] == '5');
        },
        InfoPage::GeneralOffice => {
            assert("zhbgs"@.len() == 5);
            assert("905"@.len() == 3);
            assert("906"@.len() == 3);
            assert("zhbgs"@[0] == 'z' && "55625"@[0] == '5');
            assert("zhbgs"@[0] == 'z' && "55641"@[0] == '5');
            assert("zhbgs"@[0] == 'z' && "55642"@[0] == '5');
            assert("zhbgs"@[0] == 'z' && "55643"@[0] == '5');
            assert("zhbgs"@[0] == 'z' && "55644"@[0] == '5');
            assert("zhbgs"@[0] == 'z' && "55645"@[0] == '5');
            assert("xjxg"@.len() == 4);
            assert("zhbgs"@[0] == 'z' && "55628"@[0] == '5');
            assert("zhbgs"@[0] == 'z' && "55018"@[0] == '5');
            assert("zhbgs"@[0] == 'z' && "55019"@[0] == '5');
            assert("zhbgs"@[0] == 'z' && "55020"@[0] == '5');
            assert("zhbgs"@[0] == 'z' && "55017"@[0] == '5');
            assert("xzzq"@.len() == 4);
            assert("mybs"@.len() == 4);
            assert("xgzcgd"@.len() == 6);
            assert("byzs"@.len() == 4);
            assert("xzzq_62790"@.len() == 10);
            assert("xjzc"@.len() == 4);
            assert("zhbgs"@[0] == 'z' && "55005"@[0] == '5');
            assert("zhbgs"@[0] == 'z' && "55006"@[0] == '5');
        },
        InfoPage::AdmissionsOffice => {
            assert("30199"@.len() == 5);
            assert("905"@.len() == 3);
            assert("906"@.len() == 3);
            assert("30199"@[0] == '3' && "55625"@[0] == '5');
            assert("30199"@[0] == '3' && "55641"@[0] == '5');
            assert("30199"@[0] == '3' && "55642"@[0] == '5');
            assert("30199"@[0] == '3' && "55643"@[0] == '5');
            assert("30199"@[0] == '3' && "55644"@[0] == '5');
            assert("30199"@[0] == '3' && "55645"@[0] == '5');
            assert("xjxg"@.len() == 4);
            assert("30199"@[0] == '3' && "55628"@[0] == '5');
            assert("30199"@[0] == '3' && "55018"@[0] == '5');
            assert("30199"@[0] == '3' && "55019"@[0] == '5');
            assert("30199"@[0] == '3' && "55020"@[0] == '5');
            assert("30199"@[0] == '3' && "55017"@[0] == '5');
            assert("xzzq"@.len() == 4);
            assert("mybs"@.len() == 4);
            assert("xgzcgd"@.len() == 6);
            assert("byzs"@.len() == 4);
            assert("xzzq_62790"@.len() == 10);
            assert("xjzc"@.len() == 4);
            assert("30199"@[0] == '3' && "55005"@[0] == '5');
            assert("30199"@[0] == '3' && "55006"@[0] == '5');
            assert("30199"@[0] == '3' && "zhbgs"@[0] == 'z');
        },
        InfoPage::TrainingOffice => {
            assert("30200"@.len() == 5);
            assert("905"@.len() == 3);
            assert("906"@.len() == 3);
            assert("30200"@[0] == '3' && "55625"@[0] == '5');
            assert("30200"@[0] == '3' && "55641"@[0] == '5');
            assert("30200"@[0] == '3' && "55642"@[0] == '5');
            assert("30200"@[0] == '3' && "55643"@[0] == '5');
            assert("30200"@[0] == '3' && "55644"@[0] == '5');
            assert("30200"@[0] == '3' && "55645"@[0] == '5');
            assert("xjxg"@.len() == 4);
            assert("30200"@[0] == '3' && "55628"@[0] == '5');
            assert("30200"@[0] == '3' && "55018"@[0] == '5');
            assert("30200"@[0] == '3' && "55019"@[0] == '5');
            assert("30200"@[0] == '3' && "55020"@[0] == '5');
            assert("30200"@[0] == '3' && "55017"@[0] == '5');
            assert("xzzq"@.len() == 4);
            assert("mybs"@.len() == 4);
            assert("xgzcgd"@.len() == 6);
            assert("byzs"@.len() == 4);
            assert("xzzq_62790"@.len() == 10);
            assert("xjzc"@.len() == 4);
            assert("30200"@[0] == '3' && "55005"@[0] == '5');
            assert("30200"@[0] == '3' && "55006"@[0] == '5');
            assert("30200"@[0] == '3' && "zhbgs"@[0] == 'z');
            assert("30200"@[2] == '2' && "30199"@[2] == '1');
        },
        InfoPage::DevelopmentOffice => {
            assert("61977"@.len() == 5);
            assert("905"@.len() == 3);
            assert("906"@.len() == 3);
            assert("61977"@[0] == '6' && "55625"@[0] == '5');
            assert("61977"@[0] == '6' && "55641"@[0] == '5');
            assert("61977"@[0] == '6' && "55642"@[0] == '5');
            assert("61977"@[0] == '6' && "55643"@[0] == '5');
            assert("61977"@[0] == '6' && "55644"@[0] == '5');
            assert("61977"@[0] == '6' && "55645"@[0] == '5');
            assert("xjxg"@.len() == 4);
            assert("61977"@[0] == '6' && "55628"@[0] == '5');
            assert("61977"@[0] == '6' && "55018"@[0] == '5');
            assert("61977"@[0] == '6' && "55019"@[0] == '5');
            assert("61977"@[0] == '6' && "55020"@[0] == '5');
            assert("61977"@[0] == '6' && "55017"@[0] == '5');
            assert("xzzq"@.len() == 4);
            assert("mybs"@.len() == 4);
            assert("xgzcgd"@.len() == 6);
            assert("byzs"@.len() == 4);
            assert("xzzq_62790"@.len() == 10);
            assert("xjzc"@.len() == 4);
            assert("61977"@[0] == '6' && "55005"@[0] == '5');
            assert("61977"@[0] == '6' && "55006"@[0] == '5');
            assert("61977"@[0] == '6' && "zhbgs"@[0] == 'z');
            assert("61977"@[0] == '6' && "30199"@[0] == '3');
            assert("61977"@[0] == '6' && "30200"@[0] == '3');
        },
        InfoPage::DegreeOffice => {
            assert("30202"@.len() == 5);
            assert("905"@.len() == 3);
            assert("906"@.len() == 3);
            assert("30202"@[0] == '3' && "55625"@[0] == '5');
            assert("30202"@[0] == '3' && "55641"@[0] == '5');
            assert("30202"@[0] == '3' && "55642"@[0] == '5');
            assert("30202"@[0] == '3' && "55643"@[0] == '5');
            assert("30202"@[0] == '3' && "55644"@[0] == '5');
            assert("30202"@[0] == '3' && "55645"@[0] == '5');
            assert("xjxg"@.len() == 4);
            assert("30202"@[0] == '3' && "55628"@[0] == '5');
            assert("30202"@[0] == '3' && "55018"@[0] == '5');
            assert("30202"@[0] == '3' && "55019"@[0] == '5');
            assert("30202"@[0] == '3' && "55020"@[0] == '5');
            assert("30202"@[0] == '3' && "55017"@[0] == '5');
            assert("xzzq"@.len() == 4);
            assert("mybs"@.len() == 4);
            assert("xgzcgd"@.len() == 6);
            assert("byzs"@.len() == 4);
            assert("xzzq_62790"@.len() == 10);
            assert("xjzc"@.len() == 4);
            assert("30202"@[0] == '3' && "55005"@[0] == '5');
            assert("30202"@[0] == '3' && "55006"@[0] == '5');
            assert("30202"@[0] == '3' && "zhbgs"@[0] == 'z');
            assert("30202"@[2] == '2' && "30199"@[2] == '1');
            assert("30202"@[4] == '2' && "30200"@[4] == '0');
            assert("30202"@[0] == '3' && "61977"@[0] == '6');
        },
        InfoPage::StudentAffairsOffice => {
            assert("61978"@.len() == 5);
            assert("905"@.len() == 3);
            assert("906"@.len() == 3);
            assert("61978"@[0] == '6' && "55625"@[0] == '5');
            assert("61978"@[0] == '6' && "55641"@[0] == '5');
            assert("61978"@[0] == '6' && "55642"@[0] == '5');
            assert("61978"@[0] == '6' && "55643"@[0] == '5');
            assert("61978"@[0] == '6' && "55644"@[0] == '5');
            assert("61978"@[0] == '6' && "55645"@[0] == '5');
            assert("xjxg"@.len() == 4);
            assert("61978"@[0] == '6' && "55628"@[0] == '5');
            assert("61978"@[0] == '6' && "55018"@[0] == '5');
            assert("61978"@[0] == '6' && "55019"@[0] == '5');
            assert("61978"@[0] == '6' && "55020"@[0] == '5');
            assert("61978"@[0] == '6' && "55017"@[0] == '5');
            assert("xzzq"@.len() == 4);
            assert("mybs"@.len() == 4);
            assert("xgzcgd"@.len() == 6);
            assert("byzs"@.len() == 4);
            assert("xzzq_62790"@.len() == 10);
            assert("xjzc"@.len() == 4);
            assert("61978"@[0] == '6' && "55005"@[0] == '5');
            assert("61978"@[0] == '6' && "55006"@[0] == '5');
            assert("61978"@[0] == '6' && "zhbgs"@[0] == 'z');
            assert("61978"@[0] == '6' && "30199"@[0] == '3');
            assert("61978"@[0] == '6' && "30200"@[0] == '3');
            assert("61978"@[4] == '8' && "61977"@[4] == '7');
            assert("61978"@[0] == '6' && "30202"@[0] == '3');
        },
        InfoPage::SuzhouOffice => {
            assert("szxqbgs"@.len() == 7);
            assert("905"@.len() == 3);
            assert("906"@.len() == 3);
            assert("55625"@.len() == 5);
            assert("55641"@.len() == 5);
            assert("55642"@.len() == 5);
            assert("55643"@.len() == 5);
            assert("55644"@.len() == 5);
            assert("55645"@.len() == 5);
            assert("xjxg"@.len() == 4);
            assert("55628"@.len() == 5);
            assert("55018"@.len() == 5);
            assert("55019"@.len() == 5);
            assert("55020"@.len() == 5);
            assert("55017"@.len() == 5);
            assert("xzzq"@.len() == 4);
            assert("mybs"@.len() == 4);
            assert("xgzcgd"@.len() == 6);
            assert("byzs"@.len() == 4);
            assert("xzzq_62790"@.len() == 10);
            assert("xjzc"@.len() == 4);
            assert("55005"@.len() == 5);
            assert("55006"@.len() == 5);
            assert("zhbgs"@.len() == 5);
            assert("30199"@.len() == 5);
            assert("30200"@.len() == 5);
            assert("61977"@.len() == 5);
            assert("30202"@.len() == 5);
            assert("61978"@.len() == 5);
        },
        InfoPage::DegreeCommittee => {
            assert("55021"@.len() == 5);
            assert("905"@.len() == 3);
            assert("906"@.len() == 3);
            assert("55021"@[2] == '0' && "55625"@[2] == '6');
            assert("55021"@[2] == '0' && "55641"@[2] == '6');
            assert("55021"@[2] == '0' && "55642"@[2] == '6');
            assert("55021"@[2] == '0' && "55643"@[2] == '6');
            assert("55021"@[2] == '0' && "55644"@[2] == '6');
            assert("55021"@[2] == '0' && "55645"@[2] == '6');
            assert("xjxg"@.len() == 4);
            assert("55021"@[2] == '0' && "55628"@[2] == '6');
            assert("55021"@[3] == '2' && "55018"@[3] == '1');
            assert("55021"@[3] == '2' && "55019"@[3] == '1');
            assert("55021"@[4] == '1' && "55020"@[4] == '0');
            assert("55021"@[3] == '2' && "55017"@[3] == '1');
            assert("xzzq"@.len() == 4);
            assert("mybs"@.len() == 4);
            assert("xgzcgd"@.len() == 6);
            assert("byzs"@.len() == 4);
            assert("xzzq_62790"@.len() == 10);
            assert("xjzc"@.len() == 4);
            assert("55021"@[3] == '2' && "55005"@[3] == '0');
            assert("55021"@[3] == '2' && "55006"@[3] == '0');
            assert("55021"@[0] == '5' && "zhbgs"@[0] == 'z');
            assert("55021"@[0] == '5' && "30199"@[0] == '3');
            assert("55021"@[0] == '5' && "30200"@[0] == '3');
            assert("55021"@[0] == '5' && "61977"@[0] == '6');
            assert("55021"@[0] == '5' && "30202"@[0] == '3');
            assert("55021"@[0] == '5' && "61978"@[0] == '6');
            assert("szxqbgs"@.len() == 7);
        },
        InfoPage::CompletionCertificates => {
            assert("jyzs"@.len() == 4);
            assert("905"@.len() == 3);
            assert("906"@.len() == 3);
            assert("55625"@.len() == 5);
            assert("55641"@.len() == 5);
            assert("55642"@.len() == 5);
            assert("55643"@.len() == 5);
            assert("55644"@.len() == 5);
            assert("55645"@.len() == 5);
            assert("jyzs"@[0] == 'j' && "xjxg"@[0] == 'x');
            assert("55628"@.len() == 5);
            assert("55018"@.len() == 5);
            assert("55019"@.len() == 5);
            assert("55020"@.len() == 5);
            assert("55017"@.len() == 5);
            assert("jyzs"@[0] == 'j' && "xzzq"@[0] == 'x');
            assert("jyzs"@[0] == 'j' && "mybs"@[0] == 'm');
            assert("xgzcgd"@.len() == 6);
            assert("jyzs"@[0] == 'j' && "byzs"@[0] == 'b');
            assert("xzzq_62790"@.len() == 10);
            assert("jyzs"@[0] == 'j' && "xjzc"@[0] == 'x');
            assert("55005"@.len() == 5);
            assert("55006"@.len() == 5);
            assert("zhbgs"@.len() == 5);
            assert("30199"@.len() == 5);
            assert("30200"@.len() == 5);
            assert("61977"@.len() == 5);
            assert("30202"@.len() == 5);
            assert("61978"@.len() == 5);
            assert("szxqbgs"@.len() == 7);
            assert("55021"@.len() == 5);
        },
        InfoPage::StudentStatusChanges => {
            assert("xjyd"@.len() == 4);
            assert("905"@.len() == 3);
            assert("906"@.len() == 3);
            assert("55625"@.len() == 5);
            assert("55641"@.len() == 5);
            assert("55642"@.len() == 5);
            assert("55643"@.len() == 5);
            assert("55644"@.len() == 5);
            assert("55645"@.len() == 5);
            assert("xjyd"@[2] == 'y' && "xjxg"@[2] == 'x');
            assert("55628"@.len() == 5);
            assert("55018"@.len() == 5);
            assert("55019"@.len() == 5);
            assert("55020"@.len() == 5);
            assert("55017"@.len() == 5);
            assert("xjyd"@[1] == 'j' && "xzzq"@[1] == 'z');
            assert("xjyd"@[0] == 'x' && "mybs"@[0] == 'm');
            assert("xgzcgd"@.len() == 6);
            assert("xjyd"@[0] == 'x' && "byzs"@[0] == 'b');
            assert("xzzq_62790"@.len() == 10);
            assert("xjyd"@[2] == 'y' && "xjzc"@[2] == 'z');
            assert("55005"@.len() == 5);
            assert("55006"@.len() == 5);
            assert("zhbgs"@.len() == 5);
            assert("30199"@.len() == 5);
            assert("30200"@.len() == 5);
            assert("61977"@.len() == 5);
            assert("30202"@.len() == 5);
            assert("61978"@.len() == 5);
            assert("szxqbgs"@.len() == 7);
            assert("55021"@.len() == 5);
            assert("xjyd"@[0] == 'x' && "jyzs"@[0] == 'j');
        },
    }
}

impl InfoPage {
    /// The directory of the page on the site.
    pub open spec fn spec_path(self) -> Seq<char> {
        match self {
            InfoPage::GraduateSchoolIntroduction => "55005"@,
            InfoPage::DepartmentLeaders => "55006"@,
            InfoPage::GeneralOffice => "zhbgs"@,
            InfoPage::AdmissionsOffice => "30199"@,
            InfoPage::TrainingOffice => "30200"@,
            InfoPage::DevelopmentOffice => "61977"@,
            InfoPage::DegreeOffice => "30202"@,
            InfoPage::StudentAffairsOffice => "61978"@,
            InfoPage::SuzhouOffice => "szxqbgs"@,
            InfoPage::DegreeCommittee => "55021"@,
            InfoPage::CompletionCertificates => "jyzs"@,
            InfoPage::StudentStatusChanges => "xjyd"@,
        }
    }
}

/// A page's address is the site, its directory and `/list.htm`.
pub proof fn lemma_page_url_parts(a: InfoPage)
    ensures
        a.spec_url() == site_base_url() + a.spec_path() + "/list.htm"@,
{
    reveal_strlit("https://grawww.nju.edu.cn/");
    reveal_strlit("/list.htm");
    reveal_strlit("55005");
    reveal_strlit("55006");
    reveal_strlit("zhbgs");
    reveal_strlit("30199");
    reveal_strlit("30200");
    reveal_strlit("61977");
    reveal_strlit("30202");
    reveal_strlit("61978");
    reveal_strlit("szxqbgs");
    reveal_strlit("55021");
    reveal_strlit("jyzs");
    reveal_strlit("xjyd");
    reveal_strlit("https://grawww.nju.edu.cn/55005/list.htm");
    reveal_strlit("https://grawww.nju.edu.cn/55006/list.htm");
    reveal_strlit("https://grawww.nju.edu.cn/zhbgs/list.htm");
    reveal_strlit("https://grawww.nju.edu.cn/30199/list.htm");
    reveal_strlit("https://grawww.nju.edu.cn/30200/list.htm");
    reveal_strlit("https://grawww.nju.edu.cn/61977/list.htm");
    reveal_strlit("https://grawww.nju.edu.cn/30202/list.htm");
    reveal_strlit("https://grawww.nju.edu.cn/61978/list.htm");
    reveal_strlit("https://grawww.nju.edu.cn/szxqbgs/list.htm");
    reveal_strlit("https://grawww.nju.edu.cn/55021/list.htm");
    reveal_strlit("https://grawww.nju.edu.cn/jyzs/list.htm");
    reveal_strlit("https://grawww.nju.edu.cn/xjyd/list.htm");
    match a {
        InfoPage::GraduateSchoolIntroduction => assert("https://grawww.nju.edu.cn/55005/list.htm"@ =~= "https://grawww.nju.edu.cn/"@ + "55005"@ + "/list.htm"@),
        InfoPage::DepartmentLeaders => assert("https://grawww.nju.edu.cn/55006/list.htm"@ =~= "https://grawww.nju.edu.cn/"@ + "55006"@ + "/list.htm"@),
        InfoPage::GeneralOffice => assert("https://grawww.nju.edu.cn/zhbgs/list.htm"@ =~= "https://grawww.nju.edu.cn/"@ + "zhbgs"@ + "/list.htm"@),
        InfoPage::AdmissionsOffice => assert("https://grawww.nju.edu.cn/30199/list.htm"@ =~= "https://grawww.nju.edu.cn/"@ + "30199"@ + "/list.htm"@),
        InfoPage::TrainingOffice => assert("https://grawww.nju.edu.cn/30200/list.htm"@ =~= "https://grawww.nju.edu.cn/"@ + "30200"@ + "/list.htm"@),
        InfoPage::DevelopmentOffice => assert("https://grawww.nju.edu.cn/61977/list.htm"@ =~= "https://grawww.nju.edu.cn/"@ + "61977"@ + "/list.htm"@),
        InfoPage::DegreeOffice => assert("https://grawww.nju.edu.cn/30202/list.htm"@ =~= "https://grawww.nju.edu.cn/"@ + "30202"@ + "/list.htm"@),
        InfoPage::StudentAffairsOffice => assert("https://grawww.nju.edu.cn/61978/list.htm"@ =~= "https://grawww.nju.edu.cn/"@ + "61978"@ + "/list.htm"@),
        InfoPage::SuzhouOffice => assert("https://grawww.nju.edu.cn/szxqbgs/list.htm"@ =~= "https://grawww.nju.edu.cn/"@ + "szxqbgs"@ + "/list.htm"@),
        InfoPage::DegreeCommittee => assert("https://grawww.nju.edu.cn/55021/list.htm"@ =~= "https://grawww.nju.edu.cn/"@ + "55021"@ + "/list.htm"@),
        InfoPage::CompletionCertificates => assert("https://grawww.nju.edu.cn/jyzs/list.htm"@ =~= "https://grawww.nju.edu.cn/"@ + "jyzs"@ + "/list.htm"@),
        InfoPage::StudentStatusChanges => assert("https://grawww.nju.edu.cn/xjyd/list.htm"@ =~= "https://grawww.nju.edu.cn/"@ + "xjyd"@ + "/list.htm"@),
    }
}

/// A section or an information page of the site: what a list path names.
#[derive(Debug, Clone, Copy, PartialEq, Eq, Structural)]
pub enum SiteList {
    Section(ArticleSection),
    Page(InfoPage),
}

/// `base + x + suffix` determines `x`.
proof fn lemma_middle_determined(base: Seq<char>, x: Seq<char>, y: Seq<char>, suffix: Seq<char>)
    requires
        base + x + suffix == base + y + suffix,
    ensures
        x == y,
{
    let u = base + x + suffix;
    assert(u.len() == base.len() + x.len() + suffix.len());
    assert((base + y + suffix).len() == base.len() + y.len() + suffix.len());
    assert(x.len() == y.len());
    assert(x =~= u.subrange(base.len() as int, (base.len() + x.len()) as int));
    assert(y =~= u.subrange(base.len() as int, (base.len() + y.len()) as int));
}

/// Different article sections have different slugs, so a slug names one section.
pub proof fn lemma_section_slug_injective(a: ArticleSection, b: ArticleSection)
    requires
        a.spec_slug() == b.spec_slug(),
    ensures
        a == b,
{
    lemma_section_of_slug(a);
    lemma_section_of_slug(b);
}

/// Different article sections have different titles.
pub proof fn lemma_section_title_injective(a: ArticleSection, b: ArticleSection)
    requires
        a.spec_title() == b.spec_title(),
    ensures
        a == b,
{
    lemma_section_of_title(a);
    lemma_section_of_title(b);
}

/// Different article sections list their articles under different paths.
pub proof fn lemma_section_list_path_injective(a: ArticleSection, b: ArticleSection)
    requires
        a.spec_list_path() == b.spec_list_path(),
    ensures
        a == b,
{
    lemma_list_of_section_path(a);
    lemma_list_of_section_path(b);
}

/// Different article sections have different first list pages.
pub proof fn lemma_section_list_url_injective(a: ArticleSection, b: ArticleSection)
    requires
        a.spec_list_url() == b.spec_list_url(),
    ensures
        a == b,
{
    lemma_middle_determined(site_base_url(), a.spec_list_path(), b.spec_list_path(), "/list.htm"@);
    lemma_section_list_path_injective(a, b);
}

/// Every first list page is on the site and ends in `/list.htm`.
pub proof fn lemma_section_list_url_shape(a: ArticleSection)
    ensures
        has_prefix(a.spec_list_url(), site_base_url()),
        has_suffix(a.spec_list_url(), "/list.htm"@),
{
    let u = a.spec_list_url();
    assert(u.take(site_base_url().len() as int) =~= site_base_url());
    assert(u.skip(u.len() - "/list.htm"@.len()) =~= "/list.htm"@);
}

/// Different information pages have different slugs.
pub proof fn lemma_page_slug_injective(a: InfoPage, b: InfoPage)
    requires
        a.spec_slug() == b.spec_slug(),
    ensures
        a == b,
{
    lemma_page_of_slug(a);
    lemma_page_of_slug(b);
}

/// Different information pages have different titles.
pub proof fn lemma_page_title_injective(a: InfoPage, b: InfoPage)
    requires
        a.spec_title() == b.spec_title(),
    ensures
        a == b,
{
    lemma_page_of_title(a);
    lemma_page_of_title(b);
}

/// Different information pages have different addresses.
pub proof fn lemma_page_url_injective(a: InfoPage, b: InfoPage)
    requires
        a.spec_url() == b.spec_url(),
    ensures
        a == b,
{
    lemma_page_url_parts(a);
    lemma_page_url_parts(b);
    lemma_middle_determined(site_base_url(), a.spec_path(), b.spec_path(), "/list.htm"@);
    lemma_list_of_page_path(a);
    lemma_list_of_page_path(b);
}

/// No information page is at the address of a section's first list page.
pub proof fn lemma_page_url_not_list_url(p: InfoPage, s: ArticleSection)
    ensures
        p.spec_url() != s.spec_list_url(),
{
    lemma_page_url_parts(p);
    if p.spec_url() == s.spec_list_url() {
        lemma_middle_determined(site_base_url(), p.spec_path(), s.spec_list_path(), "/list.htm"@);
        lemma_list_of_page_path(p);
        lemma_list_of_section_path(s);
    }
}

/// Every information page is on the site and ends in `/list.htm`.
pub proof fn lemma_page_url_shape(p: InfoPage)
    ensures
        has_prefix(p.spec_url(), site_base_url()),
        has_suffix(p.spec_url(), "/list.htm"@),
{
    lemma_page_url_parts(p);
    let u = p.spec_url();
    assert(u.take(site_base_url().len() as int) =~= site_base_url());
    assert(u.skip(u.len() - "/list.htm"@.len()) =~= "/list.htm"@);
}

/// The list of all sections names every section exactly once.
pub proof fn lemma_all_sections_complete(s: ArticleSection)
    ensures
        all_sections().contains(s),
        all_sections().no_duplicates(),
{
    match s {
        ArticleSection::Notifications => assert(all_sections()[0] == s),
        ArticleSection::ServiceGuides => assert(all_sections()[1] == s),
        ArticleSection::TrainingRegulations => assert(all_sections()[2] == s),
        ArticleSection::NationalSponsoredPrograms => assert(all_sections()[3] == s),
        ArticleSection::UniversityExchangePrograms => assert(all_sections()[4] == s),
        ArticleSection::TrainingInnovationProjects => assert(all_sections()[5] == s),
        ArticleSection::CombinedMasterDoctor => assert(all_sections()[6] == s),
        ArticleSection::CourseDevelopment => assert(all_sections()[7] == s),
        ArticleSection::TrainingStudentStatus => assert(all_sections()[8] == s),
        ArticleSection::TrainingDownloads => assert(all_sections()[9] == s),
        ArticleSection::DegreeWork => assert(all_sections()[10] == s),
        ArticleSection::SupervisorWork => assert(all_sections()[11] == s),
        ArticleSection::ExcellentTheses => assert(all_sections()[12] == s),
        ArticleSection::DegreeImprovementProgram => assert(all_sections()[13] == s),
        ArticleSection::DegreeDownloads => assert(all_sections()[14] == s),
        ArticleSection::HonoraryDoctors => assert(all_sections()[15] == s),
        ArticleSection::StudentPolicies => assert(all_sections()[16] == s),
        ArticleSection::GraduationCertificates => assert(all_sections()[17] == s),
        ArticleSection::StudentDownloads => assert(all_sections()[18] == s),
        ArticleSection::StudentRegistration => assert(all_sections()[19] == s),
    }
}

/// The list of all pages names every page exactly once.
pub proof fn lemma_all_pages_complete(s: InfoPage)
    ensures
        all_pages().contains(s),
        all_pages().no_duplicates(),
{
    match s {
        InfoPage::GraduateSchoolIntroduction => assert(all_pages()[0] == s),
        InfoPage::DepartmentLeaders => assert(all_pages()[1] == s),
        InfoPage::GeneralOffice => assert(all_pages()[2] == s),
        InfoPage::AdmissionsOffice => assert(all_pages()[3] == s),
        InfoPage::TrainingOffice => assert(all_pages()[4] == s),
        InfoPage::DevelopmentOffice => assert(all_pages()[5] == s),
        InfoPage::DegreeOffice => assert(all_pages()[6] == s),
        InfoPage::StudentAffairsOffice => assert(all_pages()[7] == s),
        InfoPage::SuzhouOffice => assert(all_pages()[8] == s),
        InfoPage::DegreeCommittee => assert(all_pages()[9] == s),
        InfoPage::CompletionCertificates => assert(all_pages()[10] == s),
        InfoPage::StudentStatusChanges => assert(all_pages()[11] == s),
    }
}

} // verus!
