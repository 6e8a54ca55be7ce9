//! News categories, articles and the per-category article cache.

use vstd::prelude::*;

use crate::error::{is_invalid_category_error, Error};
use crate::text::{
    all_simple, ascii_lowercase, chars_of, contains_chars, contains_seq, eq_lit, lowercase, to_lowercase,
};
use crate::time::{chrono_represents, now_timestamp, Timestamp};

verus! {

/// News category enumeration
#[derive(Debug, Clone, Copy, PartialEq, Eq, Hash, Structural)]
pub enum NewsCategory {
    Technology,
    Science,
    HackerNews,
    // China News categories
    Instant,
    Headlines,
    Politics,
    EastWest,
    Society,
    Finance,
    Life,
    Wellness,
    GreaterBayArea,
    Chinese,
    Video,
    Photo,
    Creative,
    Live,
    Education,
    Law,
    UnitedFront,
    EthnicUnity,
    Theory,
    Asean,
    // NewsNow Hot List categories
    WeiboHot,
    BaiduHot,
    ZhihuHot,
    DouyinHot,
    BilibiliHot,
    TiebaHot,
    ToutiaoHot,
    WallstreetcnHot,
    ClsHot,
    ThepaperHot,
    IfengHot,
}

/// The number of news categories.
pub const CATEGORY_COUNT: usize = 34;

/// The position of a category in [`all_categories`].
pub open spec fn category_index(c: NewsCategory) -> nat {
    match c {
        NewsCategory::Technology => 0,
        NewsCategory::Science => 1,
        NewsCategory::HackerNews => 2,
        NewsCategory::Instant => 3,
        NewsCategory::Headlines => 4,
        NewsCategory::Politics => 5,
        NewsCategory::EastWest => 6,
        NewsCategory::Society => 7,
        NewsCategory::Finance => 8,
        NewsCategory::Life => 9,
        NewsCategory::Wellness => 10,
        NewsCategory::GreaterBayArea => 11,
        NewsCategory::Chinese => 12,
        NewsCategory::Video => 13,
        NewsCategory::Photo => 14,
        NewsCategory::Creative => 15,
        NewsCategory::Live => 16,
        NewsCategory::Education => 17,
        NewsCategory::Law => 18,
        NewsCategory::UnitedFront => 19,
        NewsCategory::EthnicUnity => 20,
        NewsCategory::Theory => 21,
        NewsCategory::Asean => 22,
        NewsCategory::WeiboHot => 23,
        NewsCategory::BaiduHot => 24,
        NewsCategory::ZhihuHot => 25,
        NewsCategory::DouyinHot => 26,
        NewsCategory::BilibiliHot => 27,
        NewsCategory::TiebaHot => 28,
        NewsCategory::ToutiaoHot => 29,
        NewsCategory::WallstreetcnHot => 30,
        NewsCategory::ClsHot => 31,
        NewsCategory::ThepaperHot => 32,
        NewsCategory::IfengHot => 33,
    }
}

/// Every category, in declaration order.
pub open spec fn all_categories() -> Seq<NewsCategory> {
    seq![
        NewsCategory::Technology,
        NewsCategory::Science,
        NewsCategory::HackerNews,
        NewsCategory::Instant,
        NewsCategory::Headlines,
        NewsCategory::Politics,
        NewsCategory::EastWest,
        NewsCategory::Society,
        NewsCategory::Finance,
        NewsCategory::Life,
        NewsCategory::Wellness,
        NewsCategory::GreaterBayArea,
        NewsCategory::Chinese,
        NewsCategory::Video,
        NewsCategory::Photo,
        NewsCategory::Creative,
        NewsCategory::Live,
        NewsCategory::Education,
        NewsCategory::Law,
        NewsCategory::UnitedFront,
        NewsCategory::EthnicUnity,
        NewsCategory::Theory,
        NewsCategory::Asean,
        NewsCategory::WeiboHot,
        NewsCategory::BaiduHot,
        NewsCategory::ZhihuHot,
        NewsCategory::DouyinHot,
        NewsCategory::BilibiliHot,
        NewsCategory::TiebaHot,
        NewsCategory::ToutiaoHot,
        NewsCategory::WallstreetcnHot,
        NewsCategory::ClsHot,
        NewsCategory::ThepaperHot,
        NewsCategory::IfengHot,
    ]
}

/// The display name of a category.
pub open spec fn display_name_of(c: NewsCategory) -> Seq<char> {
    match c {
        NewsCategory::Technology => "Technology"@,
        NewsCategory::Science => "Science"@,
        NewsCategory::HackerNews => "Hacker News"@,
        NewsCategory::Instant => "即时新闻"@,
        NewsCategory::Headlines => "要闻导读"@,
        NewsCategory::Politics => "时政新闻"@,
        NewsCategory::EastWest => "东西问"@,
        NewsCategory::Society => "社会新闻"@,
        NewsCategory::Finance => "财经新闻"@,
        NewsCategory::Life => "生活"@,
        NewsCategory::Wellness => "健康"@,
        NewsCategory::GreaterBayArea => "大湾区"@,
        NewsCategory::Chinese => "华人"@,
        NewsCategory::Video => "视频"@,
        NewsCategory::Photo => "图片"@,
        NewsCategory::Creative => "创意"@,
        NewsCategory::Live => "直播"@,
        NewsCategory::Education => "教育"@,
        NewsCategory::Law => "法治"@,
        NewsCategory::UnitedFront => "同心"@,
        NewsCategory::EthnicUnity => "铸牢中华民族共同体意识"@,
        NewsCategory::Theory => "理论"@,
        NewsCategory::Asean => "中国—东盟商贸资讯平台"@,
        NewsCategory::WeiboHot => "微博热搜"@,
        NewsCategory::BaiduHot => "百度热搜"@,
        NewsCategory::ZhihuHot => "知乎热榜"@,
        NewsCategory::DouyinHot => "抖音热点"@,
        NewsCategory::BilibiliHot => "B站热搜"@,
        NewsCategory::TiebaHot => "贴吧热议"@,
        NewsCategory::ToutiaoHot => "今日头条热点"@,
        NewsCategory::WallstreetcnHot => "华尔街见闻热门"@,
        NewsCategory::ClsHot => "财联社热门"@,
        NewsCategory::ThepaperHot => "澎湃热门"@,
        NewsCategory::IfengHot => "凤凰网热门"@,
    }
}

/// The description of a category.
pub open spec fn description_of(c: NewsCategory) -> Seq<char> {
    match c {
        NewsCategory::Technology => "Technology news from TechCrunch, Ars Technica, The Verge"@,
        NewsCategory::Science => "Science news from ScienceDaily"@,
        NewsCategory::HackerNews => "Top stories from Hacker News"@,
        NewsCategory::Instant => "即时新闻 - 中国新闻网滚动新闻"@,
        NewsCategory::Headlines => "要闻导读 - 中国新闻网重要新闻"@,
        NewsCategory::Politics => "时政新闻 - 中国新闻网时政要闻"@,
        NewsCategory::EastWest => "东西问 - 中国新闻网文化对话"@,
        NewsCategory::Society => "社会新闻 - 中国新闻网社会百态"@,
        NewsCategory::Finance => "财经新闻 - 中国新闻网财经资讯"@,
        NewsCategory::Life => "生活 - 中国新闻网生活服务"@,
        NewsCategory::Wellness => "健康 - 中国新闻网健康资讯"@,
        NewsCategory::GreaterBayArea => "大湾区 - 中国新闻网粤港澳大湾区"@,
        NewsCategory::Chinese => "华人 - 中国新闻网海外华人"@,
        NewsCategory::Video => "视频 - 中国新闻网视频新闻"@,
        NewsCategory::Photo => "图片 - 中国新闻网图片新闻"@,
        NewsCategory::Creative => "创意 - 中国新闻网创意产业"@,
        NewsCategory::Live => "直播 - 中国新闻网直播报道"@,
        NewsCategory::Education => "教育 - 中国新闻网教育资讯"@,
        NewsCategory::Law => "法治 - 中国新闻网法治新闻"@,
        NewsCategory::UnitedFront => "同心 - 中国新闻网统战新闻"@,
        NewsCategory::EthnicUnity => "铸牢中华民族共同体意识 - 中国新闻网民族新闻"@,
        NewsCategory::Theory => "理论 - 中国新闻网理论动态"@,
        NewsCategory::Asean => "中国—东盟商贸资讯平台 - 中国新闻网东盟资讯"@,
        NewsCategory::WeiboHot => "微博热搜 - 实时热搜榜"@,
        NewsCategory::BaiduHot => "百度热搜 - 百度实时热搜"@,
        NewsCategory::ZhihuHot => "知乎热榜 - 知乎热门话题"@,
        NewsCategory::DouyinHot => "抖音热点 - 抖音热门视频"@,
        NewsCategory::BilibiliHot => "B站热搜 - 哔哩哔哩热搜榜"@,
        NewsCategory::TiebaHot => "贴吧热议 - 百度贴吧热议话题"@,
        NewsCategory::ToutiaoHot => "今日头条热点 - 头条热门资讯"@,
        NewsCategory::WallstreetcnHot => "华尔街见闻热门 - 财经资讯"@,
        NewsCategory::ClsHot => "财联社热门 - 金融快讯"@,
        NewsCategory::ThepaperHot => "澎湃热门 - 澎湃新闻热点"@,
        NewsCategory::IfengHot => "凤凰网热门 - 凤凰资讯热点"@,
    }
}

/// The lowercase name of a category, the first of the names it is parsed from.
pub open spec fn canonical_key(c: NewsCategory) -> Seq<char> {
    match c {
        NewsCategory::Technology => "technology"@,
        NewsCategory::Science => "science"@,
        NewsCategory::HackerNews => "hackernews"@,
        NewsCategory::Instant => "instant"@,
        NewsCategory::Headlines => "headlines"@,
        NewsCategory::Politics => "politics"@,
        NewsCategory::EastWest => "eastwest"@,
        NewsCategory::Society => "society"@,
        NewsCategory::Finance => "finance"@,
        NewsCategory::Life => "life"@,
        NewsCategory::Wellness => "wellness"@,
        NewsCategory::GreaterBayArea => "greaterbayarea"@,
        NewsCategory::Chinese => "chinese"@,
        NewsCategory::Video => "video"@,
        NewsCategory::Photo => "photo"@,
        NewsCategory::Creative => "creative"@,
        NewsCategory::Live => "live"@,
        NewsCategory::Education => "education"@,
        NewsCategory::Law => "law"@,
        NewsCategory::UnitedFront => "unitedfront"@,
        NewsCategory::EthnicUnity => "ethnicunity"@,
        NewsCategory::Theory => "theory"@,
        NewsCategory::Asean => "asean"@,
        NewsCategory::WeiboHot => "weibohot"@,
        NewsCategory::BaiduHot => "baiduhot"@,
        NewsCategory::ZhihuHot => "zhihuhot"@,
        NewsCategory::DouyinHot => "douyinhot"@,
        NewsCategory::BilibiliHot => "bilibilihot"@,
        NewsCategory::TiebaHot => "tiebahot"@,
        NewsCategory::ToutiaoHot => "toutiaohot"@,
        NewsCategory::WallstreetcnHot => "wallstreetcnhot"@,
        NewsCategory::ClsHot => "clshot"@,
        NewsCategory::ThepaperHot => "thepaperhot"@,
        NewsCategory::IfengHot => "ifenghot"@,
    }
}

/// The category that a lowercase name stands for, if any.
pub open spec fn category_for_key(k: Seq<char>) -> Option<NewsCategory> {
    if k == "technology"@ || k == "tech"@ {
        Some(NewsCategory::Technology)
    } else if k == "science"@ {
        Some(NewsCategory::Science)
    } else if k == "hackernews"@ || k == "hn"@ {
        Some(NewsCategory::HackerNews)
    } else if k == "instant"@ || k == "即时新闻"@ {
        Some(NewsCategory::Instant)
    } else if k == "headlines"@ || k == "要闻导读"@ {
        Some(NewsCategory::Headlines)
    } else if k == "politics"@ || k == "时政新闻"@ {
        Some(NewsCategory::Politics)
    } else if k == "eastwest"@ || k == "东西问"@ {
        Some(NewsCategory::EastWest)
    } else if k == "society"@ || k == "社会新闻"@ {
        Some(NewsCategory::Society)
    } else if k == "finance"@ || k == "财经新闻"@ {
        Some(NewsCategory::Finance)
    } else if k == "life"@ || k == "生活"@ {
        Some(NewsCategory::Life)
    } else if k == "wellness"@ || k == "健康"@ {
        Some(NewsCategory::Wellness)
    } else if k == "greaterbayarea"@ || k == "大湾区"@ {
        Some(NewsCategory::GreaterBayArea)
    } else if k == "chinese"@ || k == "华人"@ {
        Some(NewsCategory::Chinese)
    } else if k == "video"@ || k == "视频"@ {
        Some(NewsCategory::Video)
    } else if k == "photo"@ || k == "图片"@ {
        Some(NewsCategory::Photo)
    } else if k == "creative"@ || k == "创意"@ {
        Some(NewsCategory::Creative)
    } else if k == "live"@ || k == "直播"@ {
        Some(NewsCategory::Live)
    } else if k == "education"@ || k == "教育"@ {
        Some(NewsCategory::Education)
    } else if k == "law"@ || k == "法治"@ {
        Some(NewsCategory::Law)
    } else if k == "unitedfront"@ || k == "同心"@ {
        Some(NewsCategory::UnitedFront)
    } else if k == "ethnicunity"@ || k == "铸牢中华民族共同体意识"@ {
        Some(NewsCategory::EthnicUnity)
    } else if k == "theory"@ || k == "理论"@ {
        Some(NewsCategory::Theory)
    } else if k == "asean"@ || k == "中国—东盟商贸资讯平台"@ {
        Some(NewsCategory::Asean)
    } else if k == "weibohot"@ || k == "微博热搜"@ {
        Some(NewsCategory::WeiboHot)
    } else if k == "baiduhot"@ || k == "百度热搜"@ {
        Some(NewsCategory::BaiduHot)
    } else if k == "zhihuhot"@ || k == "知乎热榜"@ {
        Some(NewsCategory::ZhihuHot)
    } else if k == "douyinhot"@ || k == "抖音热点"@ {
        Some(NewsCategory::DouyinHot)
    } else if k == "bilibilihot"@ || k == "b站热搜"@ {
        Some(NewsCategory::BilibiliHot)
    } else if k == "tiebahot"@ || k == "贴吧热议"@ {
        Some(NewsCategory::TiebaHot)
    } else if k == "toutiaohot"@ || k == "今日头条热点"@ {
        Some(NewsCategory::ToutiaoHot)
    } else if k == "wallstreetcnhot"@ || k == "华尔街见闻热门"@ {
        Some(NewsCategory::WallstreetcnHot)
    } else if k == "clshot"@ || k == "财联社热门"@ {
        Some(NewsCategory::ClsHot)
    } else if k == "thepaperhot"@ || k == "澎湃热门"@ {
        Some(NewsCategory::ThepaperHot)
    } else if k == "ifenghot"@ || k == "凤凰网热门"@ {
        Some(NewsCategory::IfengHot)
    } else {
        None
    }
}


impl NewsCategory {
    /// The position of this category in [`NewsCategory::all`].
    pub fn index(&self) -> (r: usize)
        ensures
            r == category_index(*self),
    {
        match self {
            NewsCategory::Technology => 0,
            NewsCategory::Science => 1,
            NewsCategory::HackerNews => 2,
            NewsCategory::Instant => 3,
            NewsCategory::Headlines => 4,
            NewsCategory::Politics => 5,
            NewsCategory::EastWest => 6,
            NewsCategory::Society => 7,
            NewsCategory::Finance => 8,
            NewsCategory::Life => 9,
            NewsCategory::Wellness => 10,
            NewsCategory::GreaterBayArea => 11,
            NewsCategory::Chinese => 12,
            NewsCategory::Video => 13,
            NewsCategory::Photo => 14,
            NewsCategory::Creative => 15,
            NewsCategory::Live => 16,
            NewsCategory::Education => 17,
            NewsCategory::Law => 18,
            NewsCategory::UnitedFront => 19,
            NewsCategory::EthnicUnity => 20,
            NewsCategory::Theory => 21,
            NewsCategory::Asean => 22,
            NewsCategory::WeiboHot => 23,
            NewsCategory::BaiduHot => 24,
            NewsCategory::ZhihuHot => 25,
            NewsCategory::DouyinHot => 26,
            NewsCategory::BilibiliHot => 27,
            NewsCategory::TiebaHot => 28,
            NewsCategory::ToutiaoHot => 29,
            NewsCategory::WallstreetcnHot => 30,
            NewsCategory::ClsHot => 31,
            NewsCategory::ThepaperHot => 32,
            NewsCategory::IfengHot => 33,
        }
    }

    /// Get all categories
    pub fn all() -> (r: Vec<NewsCategory>)
        ensures
            r@ == all_categories(),
    {
        let r = vec![
            NewsCategory::Technology,
            NewsCategory::Science,
            NewsCategory::HackerNews,
            NewsCategory::Instant,
            NewsCategory::Headlines,
            NewsCategory::Politics,
            NewsCategory::EastWest,
            NewsCategory::Society,
            NewsCategory::Finance,
            NewsCategory::Life,
            NewsCategory::Wellness,
            NewsCategory::GreaterBayArea,
            NewsCategory::Chinese,
            NewsCategory::Video,
            NewsCategory::Photo,
            NewsCategory::Creative,
            NewsCategory::Live,
            NewsCategory::Education,
            NewsCategory::Law,
            NewsCategory::UnitedFront,
            NewsCategory::EthnicUnity,
            NewsCategory::Theory,
            NewsCategory::Asean,
            NewsCategory::WeiboHot,
            NewsCategory::BaiduHot,
            NewsCategory::ZhihuHot,
            NewsCategory::DouyinHot,
            NewsCategory::BilibiliHot,
            NewsCategory::TiebaHot,
            NewsCategory::ToutiaoHot,
            NewsCategory::WallstreetcnHot,
            NewsCategory::ClsHot,
            NewsCategory::ThepaperHot,
            NewsCategory::IfengHot,
        ];
        assert(r@ == all_categories());
        r
    }

    /// Get display name
    pub fn display_name(&self) -> (r: &'static str)
        ensures
            r@ == display_name_of(*self),
    {
        match self {
            NewsCategory::Technology => "Technology",
            NewsCategory::Science => "Science",
            NewsCategory::HackerNews => "Hacker News",
            NewsCategory::Instant => "即时新闻",
            NewsCategory::Headlines => "要闻导读",
            NewsCategory::Politics => "时政新闻",
            NewsCategory::EastWest => "东西问",
            NewsCategory::Society => "社会新闻",
            NewsCategory::Finance => "财经新闻",
            NewsCategory::Life => "生活",
            NewsCategory::Wellness => "健康",
            NewsCategory::GreaterBayArea => "大湾区",
            NewsCategory::Chinese => "华人",
            NewsCategory::Video => "视频",
            NewsCategory::Photo => "图片",
            NewsCategory::Creative => "创意",
            NewsCategory::Live => "直播",
            NewsCategory::Education => "教育",
            NewsCategory::Law => "法治",
            NewsCategory::UnitedFront => "同心",
            NewsCategory::EthnicUnity => "铸牢中华民族共同体意识",
            NewsCategory::Theory => "理论",
            NewsCategory::Asean => "中国—东盟商贸资讯平台",
            NewsCategory::WeiboHot => "微博热搜",
            NewsCategory::BaiduHot => "百度热搜",
            NewsCategory::ZhihuHot => "知乎热榜",
            NewsCategory::DouyinHot => "抖音热点",
            NewsCategory::BilibiliHot => "B站热搜",
            NewsCategory::TiebaHot => "贴吧热议",
            NewsCategory::ToutiaoHot => "今日头条热点",
            NewsCategory::WallstreetcnHot => "华尔街见闻热门",
            NewsCategory::ClsHot => "财联社热门",
            NewsCategory::ThepaperHot => "澎湃热门",
            NewsCategory::IfengHot => "凤凰网热门",
        }
    }

    /// Get description
    pub fn description(&self) -> (r: &'static str)
        ensures
            r@ == description_of(*self),
    {
        match self {
            NewsCategory::Technology => "Technology news from TechCrunch, Ars Technica, The Verge",
            NewsCategory::Science => "Science news from ScienceDaily",
            NewsCategory::HackerNews => "Top stories from Hacker News",
            NewsCategory::Instant => "即时新闻 - 中国新闻网滚动新闻",
            NewsCategory::Headlines => "要闻导读 - 中国新闻网重要新闻",
            NewsCategory::Politics => "时政新闻 - 中国新闻网时政要闻",
            NewsCategory::EastWest => "东西问 - 中国新闻网文化对话",
            NewsCategory::Society => "社会新闻 - 中国新闻网社会百态",
            NewsCategory::Finance => "财经新闻 - 中国新闻网财经资讯",
            NewsCategory::Life => "生活 - 中国新闻网生活服务",
            NewsCategory::Wellness => "健康 - 中国新闻网健康资讯",
            NewsCategory::GreaterBayArea => "大湾区 - 中国新闻网粤港澳大湾区",
            NewsCategory::Chinese => "华人 - 中国新闻网海外华人",
            NewsCategory::Video => "视频 - 中国新闻网视频新闻",
            NewsCategory::Photo => "图片 - 中国新闻网图片新闻",
            NewsCategory::Creative => "创意 - 中国新闻网创意产业",
            NewsCategory::Live => "直播 - 中国新闻网直播报道",
            NewsCategory::Education => "教育 - 中国新闻网教育资讯",
            NewsCategory::Law => "法治 - 中国新闻网法治新闻",
            NewsCategory::UnitedFront => "同心 - 中国新闻网统战新闻",
            NewsCategory::EthnicUnity => "铸牢中华民族共同体意识 - 中国新闻网民族新闻",
            NewsCategory::Theory => "理论 - 中国新闻网理论动态",
            NewsCategory::Asean => "中国—东盟商贸资讯平台 - 中国新闻网东盟资讯",
            NewsCategory::WeiboHot => "微博热搜 - 实时热搜榜",
            NewsCategory::BaiduHot => "百度热搜 - 百度实时热搜",
            NewsCategory::ZhihuHot => "知乎热榜 - 知乎热门话题",
            NewsCategory::DouyinHot => "抖音热点 - 抖音热门视频",
            NewsCategory::BilibiliHot => "B站热搜 - 哔哩哔哩热搜榜",
            NewsCategory::TiebaHot => "贴吧热议 - 百度贴吧热议话题",
            NewsCategory::ToutiaoHot => "今日头条热点 - 头条热门资讯",
            NewsCategory::WallstreetcnHot => "华尔街见闻热门 - 财经资讯",
            NewsCategory::ClsHot => "财联社热门 - 金融快讯",
            NewsCategory::ThepaperHot => "澎湃热门 - 澎湃新闻热点",
            NewsCategory::IfengHot => "凤凰网热门 - 凤凰资讯热点",
        }
    }

    /// The display name (what `to_string` gives for a category).
    pub fn to_string(&self) -> (r: String)
        ensures
            r@ == display_name_of(*self),
    {
        self.display_name().to_owned()
    }

    /// The category named by an already lowercased name, if any.
    pub fn from_lowercase(key: &str) -> (r: Option<NewsCategory>)
        ensures
            r == category_for_key(key@),
    {
        let k = chars_of(key);
        if eq_lit(&k, "technology") || eq_lit(&k, "tech") {
            Some(NewsCategory::Technology)
        } else if eq_lit(&k, "science") {
            Some(NewsCategory::Science)
        } else if eq_lit(&k, "hackernews") || eq_lit(&k, "hn") {
            Some(NewsCategory::HackerNews)
        } else if eq_lit(&k, "instant") || eq_lit(&k, "即时新闻") {
            Some(NewsCategory::Instant)
        } else if eq_lit(&k, "headlines") || eq_lit(&k, "要闻导读") {
            Some(NewsCategory::Headlines)
        } else if eq_lit(&k, "politics") || eq_lit(&k, "时政新闻") {
            Some(NewsCategory::Politics)
        } else if eq_lit(&k, "eastwest") || eq_lit(&k, "东西问") {
            Some(NewsCategory::EastWest)
        } else if eq_lit(&k, "society") || eq_lit(&k, "社会新闻") {
            Some(NewsCategory::Society)
        } else if eq_lit(&k, "finance") || eq_lit(&k, "财经新闻") {
            Some(NewsCategory::Finance)
        } else if eq_lit(&k, "life") || eq_lit(&k, "生活") {
            Some(NewsCategory::Life)
        } else if eq_lit(&k, "wellness") || eq_lit(&k, "健康") {
            Some(NewsCategory::Wellness)
        } else if eq_lit(&k, "greaterbayarea") || eq_lit(&k, "大湾区") {
            Some(NewsCategory::GreaterBayArea)
        } else if eq_lit(&k, "chinese") || eq_lit(&k, "华人") {
            Some(NewsCategory::Chinese)
        } else if eq_lit(&k, "video") || eq_lit(&k, "视频") {
            Some(NewsCategory::Video)
        } else if eq_lit(&k, "photo") || eq_lit(&k, "图片") {
            Some(NewsCategory::Photo)
        } else if eq_lit(&k, "creative") || eq_lit(&k, "创意") {
            Some(NewsCategory::Creative)
        } else if eq_lit(&k, "live") || eq_lit(&k, "直播") {
            Some(NewsCategory::Live)
        } else if eq_lit(&k, "education") || eq_lit(&k, "教育") {
            Some(NewsCategory::Education)
        } else if eq_lit(&k, "law") || eq_lit(&k, "法治") {
            Some(NewsCategory::Law)
        } else if eq_lit(&k, "unitedfront") || eq_lit(&k, "同心") {
            Some(NewsCategory::UnitedFront)
        } else if eq_lit(&k, "ethnicunity") || eq_lit(&k, "铸牢中华民族共同体意识") {
            Some(NewsCategory::EthnicUnity)
        } else if eq_lit(&k, "theory") || eq_lit(&k, "理论") {
            Some(NewsCategory::Theory)
        } else if eq_lit(&k, "asean") || eq_lit(&k, "中国—东盟商贸资讯平台") {
            Some(NewsCategory::Asean)
        } else if eq_lit(&k, "weibohot") || eq_lit(&k, "微博热搜") {
            Some(NewsCategory::WeiboHot)
        } else if eq_lit(&k, "baiduhot") || eq_lit(&k, "百度热搜") {
            Some(NewsCategory::BaiduHot)
        } else if eq_lit(&k, "zhihuhot") || eq_lit(&k, "知乎热榜") {
            Some(NewsCategory::ZhihuHot)
        } else if eq_lit(&k, "douyinhot") || eq_lit(&k, "抖音热点") {
            Some(NewsCategory::DouyinHot)
        } else if eq_lit(&k, "bilibilihot") || eq_lit(&k, "b站热搜") {
            Some(NewsCategory::BilibiliHot)
        } else if eq_lit(&k, "tiebahot") || eq_lit(&k, "贴吧热议") {
            Some(NewsCategory::TiebaHot)
        } else if eq_lit(&k, "toutiaohot") || eq_lit(&k, "今日头条热点") {
            Some(NewsCategory::ToutiaoHot)
        } else if eq_lit(&k, "wallstreetcnhot") || eq_lit(&k, "华尔街见闻热门") {
            Some(NewsCategory::WallstreetcnHot)
        } else if eq_lit(&k, "clshot") || eq_lit(&k, "财联社热门") {
            Some(NewsCategory::ClsHot)
        } else if eq_lit(&k, "thepaperhot") || eq_lit(&k, "澎湃热门") {
            Some(NewsCategory::ThepaperHot)
        } else if eq_lit(&k, "ifenghot") || eq_lit(&k, "凤凰网热门") {
            Some(NewsCategory::IfengHot)
        } else {
            None
        }
    }

    /// Parses a category name, ignoring case. Names are the lowercase
    /// category names (`"technology"`, `"hackernews"`, ...), their Chinese
    /// display names, and the short forms `"tech"` and `"hn"`.
    pub fn parse(s: &str) -> (r: Result<NewsCategory, Error>)
        ensures
            category_for_key(lowercase(s@)) matches Some(c) ==> r == Ok::<NewsCategory, Error>(c),
            category_for_key(lowercase(s@)) is None ==> (r matches Err(e)
                && is_invalid_category_error(e, s@)),
            all_simple(s@) ==> match category_for_key(ascii_lowercase(s@)) {
                Some(c) => r == Ok::<NewsCategory, Error>(c),
                None => r is Err,
            },
    {
        let lower = to_lowercase(s);
        match NewsCategory::from_lowercase(lower.as_str()) {
            Some(c) => Ok(c),
            None => Err(Error::invalid_category(s)),
        }
    }
}

/// Every category occurs in [`NewsCategory::all`] exactly once, at its index.
pub proof fn lemma_all_categories_lists_each_once(c: NewsCategory)
    ensures
        all_categories().len() == CATEGORY_COUNT,
        category_index(c) < CATEGORY_COUNT,
        all_categories()[category_index(c) as int] == c,
        forall|i: int|
            0 <= i < CATEGORY_COUNT ==> category_index(#[trigger] all_categories()[i]) == i,
{
}

/// News article structure
#[derive(Debug, Clone)]
pub struct NewsArticle {
    /// Article title
    pub title: String,
    /// Article description/summary
    pub description: Option<String>,
    /// Article URL link
    pub link: String,
    /// Source name
    pub source: String,
    /// Category
    pub category: NewsCategory,
    /// Publication time
    pub published_at: Option<Timestamp>,
    /// Author name
    pub author: Option<String>,
}

fn clone_opt_string(s: &Option<String>) -> (r: Option<String>)
    ensures
        r == *s,
{
    match s {
        Some(t) => Some(t.clone()),
        None => None,
    }
}

impl NewsArticle {
    /// Create a new article
    pub fn new(
        title: String,
        description: Option<String>,
        link: String,
        source: String,
        category: NewsCategory,
        published_at: Option<Timestamp>,
        author: Option<String>,
    ) -> (r: Self)
        ensures
            r == (NewsArticle { title, description, link, source, category, published_at, author }),
    {
        NewsArticle { title, description, link, source, category, published_at, author }
    }

    /// A copy of this article.
    pub fn duplicate(&self) -> (r: Self)
        ensures
            r == *self,
    {
        NewsArticle {
            title: self.title.clone(),
            description: clone_opt_string(&self.description),
            link: self.link.clone(),
            source: self.source.clone(),
            category: self.category,
            published_at: self.published_at,
            author: clone_opt_string(&self.author),
        }
    }
}

/// Whether the lowercased `text` contains the lowercased query `lower_query`.
pub open spec fn text_matches(text: Seq<char>, lower_query: Seq<char>) -> bool {
    contains_seq(lowercase(text), lower_query)
}

/// Whether an article's title or description contains the lowercased query,
/// compared in lowercase.
pub open spec fn article_matches(a: NewsArticle, lower_query: Seq<char>) -> bool {
    text_matches(a.title@, lower_query) || (a.description matches Some(d) && text_matches(
        d@,
        lower_query,
    ))
}

/// The articles of `s` that match the lowercased query, in order.
pub open spec fn matching(s: Seq<NewsArticle>, lower_query: Seq<char>) -> Seq<NewsArticle>
    decreases s.len(),
{
    if s.len() == 0 {
        Seq::empty()
    } else if article_matches(s.last(), lower_query) {
        matching(s.drop_last(), lower_query).push(s.last())
    } else {
        matching(s.drop_last(), lower_query)
    }
}

/// The lists concatenated in order.
pub open spec fn concat_lists(lists: Seq<Seq<NewsArticle>>) -> Seq<NewsArticle>
    decreases lists.len(),
{
    if lists.len() == 0 {
        Seq::empty()
    } else {
        concat_lists(lists.drop_last()) + lists.last()
    }
}

/// The sum of the lengths of the lists.
pub open spec fn total_len(lists: Seq<Seq<NewsArticle>>) -> nat
    decreases lists.len(),
{
    if lists.len() == 0 {
        0
    } else {
        total_len(lists.drop_last()) + lists.last().len()
    }
}

/// What a news cache holds: for each category (by [`category_index`]) its
/// articles and the time it was last set, and the most articles kept per category.
pub ghost struct CacheView {
    pub articles: Seq<Seq<NewsArticle>>,
    pub last_updated: Seq<Option<Timestamp>>,
    pub capacity: nat,
}

impl CacheView {
    /// One entry per category, none holding more than the capacity, which fits in a `usize`.
    pub open spec fn wf(self) -> bool {
        &&& self.articles.len() == CATEGORY_COUNT
        &&& self.last_updated.len() == CATEGORY_COUNT
        &&& self.capacity <= usize::MAX
        &&& forall|i: int| 0 <= i < CATEGORY_COUNT ==> #[trigger] self.articles[i].len() <= self.capacity
    }

    /// The articles cached for a category.
    pub open spec fn news(self, c: NewsCategory) -> Seq<NewsArticle> {
        self.articles[category_index(c) as int]
    }

    /// The time a category was last set, if it was.
    pub open spec fn updated(self, c: NewsCategory) -> Option<Timestamp> {
        self.last_updated[category_index(c) as int]
    }

    /// An empty cache keeping at most `capacity` articles per category.
    pub open spec fn empty(capacity: nat) -> CacheView {
        CacheView {
            articles: Seq::new(CATEGORY_COUNT as nat, |i: int| Seq::<NewsArticle>::empty()),
            last_updated: Seq::new(CATEGORY_COUNT as nat, |i: int| None::<Timestamp>),
            capacity,
        }
    }

    /// The cache after setting category `c` to the first `capacity` of `arts` at time `now`.
    pub open spec fn set(self, c: NewsCategory, arts: Seq<NewsArticle>, now: Timestamp) -> CacheView {
        let kept = if arts.len() <= self.capacity { arts } else { arts.take(self.capacity as int) };
        CacheView {
            articles: self.articles.update(category_index(c) as int, kept),
            last_updated: self.last_updated.update(category_index(c) as int, Some(now)),
            capacity: self.capacity,
        }
    }

    /// Every article, category by category in [`all_categories`] order.
    pub open spec fn all_articles(self) -> Seq<NewsArticle> {
        concat_lists(self.articles)
    }

    /// The number of cached articles.
    pub open spec fn total(self) -> nat {
        total_len(self.articles)
    }

    /// What a search for `query` (restricted to `category` where one is given) finds.
    pub open spec fn search_result(self, query: Seq<char>, category: Option<NewsCategory>) -> Seq<
        NewsArticle,
    > {
        match category {
            Some(c) => matching(self.news(c), lowercase(query)),
            None => matching(self.all_articles(), lowercase(query)),
        }
    }
}


/// The query, when one category is given.
pub open spec fn chosen(category: Option<&NewsCategory>) -> Option<NewsCategory> {
    match category {
        Some(c) => Some(*c),
        None => None,
    }
}

/// For each category, in [`all_categories`] order, the number of articles cached for it.
pub open spec fn category_counts(v: CacheView) -> Seq<(NewsCategory, usize)> {
    Seq::new(CATEGORY_COUNT as nat, |i: int| (all_categories()[i], v.articles[i].len() as usize))
}

/// Whether the lowercased title or description of `a` contains the
/// lowercased query.
pub open spec fn mentions(a: NewsArticle, query: Seq<char>) -> bool {
    ||| contains_seq(lowercase(a.title@), lowercase(query))
    ||| exists|d: String| a.description == Some(d) && contains_seq(lowercase(d@), lowercase(query))
}

/// Filtering a list for a query keeps exactly the articles whose lowercased
/// title or description contains the lowercased query anywhere, in order.
pub proof fn law_matching_keeps_mentions(s: Seq<NewsArticle>, query: Seq<char>)
    ensures
        forall|i: int| 0 <= i < s.len() && mentions(#[trigger] s[i], query) ==> matching(
            s,
            lowercase(query),
        ).contains(s[i]),
        forall|x: NewsArticle| #[trigger] matching(s, lowercase(query)).contains(x) ==> s.contains(x)
            && mentions(x, query),
    decreases s.len(),
{
    let q = lowercase(query);
    if s.len() > 0 {
        law_matching_keeps_mentions(s.drop_last(), query);
        let prev = matching(s.drop_last(), q);
        assert forall|i: int| 0 <= i < s.len() && mentions(#[trigger] s[i], query) implies matching(
            s,
            q,
        ).contains(s[i]) by {
            if i < s.len() - 1 {
                assert(s.drop_last()[i] == s[i]);
                let j = choose|j: int| 0 <= j < prev.len() && prev[j] == s[i];
                if article_matches(s.last(), q) {
                    assert(prev.push(s.last())[j] == s[i]);
                }
            } else {
                if let Some(d) = s[i].description {
                    if contains_seq(lowercase(d@), q) {
                        assert(article_matches(s[i], q));
                    }
                }
                assert(article_matches(s.last(), q));
                assert(prev.push(s.last())[prev.len() as int] == s[i]);
            }
        }
        assert forall|x: NewsArticle| #[trigger] matching(s, q).contains(x) implies s.contains(x)
            && mentions(x, query) by {
            let m = matching(s, q);
            let j = choose|j: int| 0 <= j < m.len() && m[j] == x;
            if article_matches(s.last(), q) && j == prev.len() {
                assert(s[s.len() - 1] == x);
                if !contains_seq(lowercase(x.title@), q) {
                    let d = x.description.unwrap();
                    assert(x.description == Some(d) && contains_seq(lowercase(d@), q));
                }
            } else {
                if article_matches(s.last(), q) {
                    assert(m[j] == prev[j]);
                }
                assert(prev.contains(x));
                let k = choose|k: int| 0 <= k < s.drop_last().len() && s.drop_last()[k] == x;
                assert(s[k] == x);
            }
        }
    }
}

/// Searching one category finds every article of it whose lowercased title
/// or description contains the lowercased query, and only such articles.
pub proof fn law_search_finds_mentions(v: CacheView, query: Seq<char>, c: NewsCategory)
    ensures
        forall|i: int| 0 <= i < v.news(c).len() && mentions(#[trigger] v.news(c)[i], query) ==> v.search_result(
            query,
            Some(c),
        ).contains(v.news(c)[i]),
        forall|x: NewsArticle| #[trigger] v.search_result(query, Some(c)).contains(x) ==> v.news(c).contains(x)
            && mentions(x, query),
{
    law_matching_keeps_mentions(v.news(c), query);
}

proof fn lemma_concat_lists_members(lists: Seq<Seq<NewsArticle>>)
    ensures
        forall|k: int, i: int|
            0 <= k < lists.len() && 0 <= i < lists[k].len() ==> concat_lists(lists).contains(
                #[trigger] lists[k][i],
            ),
        forall|x: NewsArticle|
            #[trigger] concat_lists(lists).contains(x) ==> exists|k: int|
                0 <= k < lists.len() && (#[trigger] lists[k]).contains(x),
    decreases lists.len(),
{
    if lists.len() > 0 {
        let init = lists.drop_last();
        lemma_concat_lists_members(init);
        let c = concat_lists(init) + lists.last();
        assert forall|k: int, i: int|
            0 <= k < lists.len() && 0 <= i < lists[k].len() implies c.contains(
                #[trigger] lists[k][i],
            ) by {
            if k < lists.len() - 1 {
                assert(init[k] == lists[k]);
                assert(concat_lists(init).contains(init[k][i]));
                let j = choose|j: int| 0 <= j < concat_lists(init).len() && concat_lists(init)[j] == init[k][i];
                assert(c[j] == concat_lists(init)[j]);
            } else {
                assert(c[concat_lists(init).len() + i] == lists.last()[i]);
            }
        }
        assert forall|x: NewsArticle| #[trigger] c.contains(x) implies exists|k: int|
            0 <= k < lists.len() && (#[trigger] lists[k]).contains(x) by {
            let j = choose|j: int| 0 <= j < c.len() && c[j] == x;
            if j < concat_lists(init).len() {
                assert(concat_lists(init)[j] == x);
                assert(concat_lists(init).contains(x));
                let k = choose|k: int| 0 <= k < init.len() && (#[trigger] init[k]).contains(x);
                assert(init[k] == lists[k]);
            } else {
                assert(lists.last()[j - concat_lists(init).len()] == x);
                assert(lists[lists.len() - 1].contains(x));
            }
        }
    }
}

/// Searching all categories finds every cached article whose lowercased title
/// or description contains the lowercased query, and only cached articles
/// that do.
pub proof fn law_search_all_finds_mentions(v: CacheView, query: Seq<char>)
    ensures
        forall|k: int, i: int|
            0 <= k < v.articles.len() && 0 <= i < v.articles[k].len() && mentions(
                #[trigger] v.articles[k][i],
                query,
            ) ==> v.search_result(query, None).contains(v.articles[k][i]),
        forall|x: NewsArticle| #[trigger] v.search_result(query, None).contains(x) ==> mentions(x, query)
            && exists|k: int| 0 <= k < v.articles.len() && (#[trigger] v.articles[k]).contains(x),
{
    let all = v.all_articles();
    lemma_concat_lists_members(v.articles);
    law_matching_keeps_mentions(all, query);
    assert forall|k: int, i: int|
        0 <= k < v.articles.len() && 0 <= i < v.articles[k].len() && mentions(
            #[trigger] v.articles[k][i],
            query,
        ) implies v.search_result(query, None).contains(v.articles[k][i]) by {
        assert(all.contains(v.articles[k][i]));
        let j = choose|j: int| 0 <= j < all.len() && all[j] == v.articles[k][i];
        assert(mentions(all[j], query));
    }
    assert forall|x: NewsArticle| #[trigger] v.search_result(query, None).contains(x) implies mentions(x, query)
        && exists|k: int| 0 <= k < v.articles.len() && (#[trigger] v.articles[k]).contains(x) by {
        assert(matching(all, lowercase(query)).contains(x));
        assert(all.contains(x));
    }
}

/// Searching a concatenation searches each part.
pub proof fn lemma_matching_concat(a: Seq<NewsArticle>, b: Seq<NewsArticle>, q: Seq<char>)
    ensures
        matching(a + b, q) == matching(a, q) + matching(b, q),
    decreases b.len(),
{
    if b.len() == 0 {
        assert(a + b == a);
        assert(matching(a, q) + matching(b, q) == matching(a, q));
    } else {
        lemma_matching_concat(a, b.drop_last(), q);
        assert((a + b).drop_last() == a + b.drop_last());
        assert((a + b).last() == b.last());
    }
}

/// A prefix of the lists holds no more articles than all of them.
pub proof fn lemma_total_len_prefix(lists: Seq<Seq<NewsArticle>>, i: int)
    requires
        0 <= i <= lists.len(),
    ensures
        total_len(lists.take(i)) <= total_len(lists),
    decreases lists.len(),
{
    if i < lists.len() {
        lemma_total_len_prefix(lists.drop_last(), i);
        assert(lists.drop_last().take(i) == lists.take(i));
    } else {
        assert(lists.take(i) == lists);
    }
}

fn lowercase_chars(s: &String) -> (r: Vec<char>)
    ensures
        r@ == lowercase(s@),
{
    let l = to_lowercase(s.as_str());
    chars_of(l.as_str())
}

/// Whether the article's title or description contains the lowercased query, in lowercase.
pub fn article_matches_query(a: &NewsArticle, lower_query: &Vec<char>) -> (r: bool)
    ensures
        r == article_matches(*a, lower_query@),
{
    let t = lowercase_chars(&a.title);
    if contains_chars(&t, lower_query) {
        return true;
    }
    match &a.description {
        Some(d) => {
            let dl = lowercase_chars(d);
            contains_chars(&dl, lower_query)
        },
        None => false,
    }
}

fn push_matching(out: &mut Vec<NewsArticle>, list: &Vec<NewsArticle>, lower_query: &Vec<char>)
    ensures
        final(out)@ == old(out)@ + matching(list@, lower_query@),
{
    let ghost o0 = out@;
    let mut i: usize = 0;
    assert(list@.take(0) == Seq::<NewsArticle>::empty());
    assert(o0 + Seq::<NewsArticle>::empty() == o0);
    while i < list.len()
        invariant
            i <= list.len(),
            out@ == o0 + matching(list@.take(i as int), lower_query@),
        decreases list.len() - i,
    {
        assert(list@.take(i + 1).drop_last() == list@.take(i as int));
        assert(list@.take(i + 1).last() == list@[i as int]);
        if article_matches_query(&list[i], lower_query) {
            out.push(list[i].duplicate());
        }
        i = i + 1;
    }
    assert(list@.take(list.len() as int) == list@);
}

/// News cache structure: the articles of each category, with the time each
/// category was last set.
#[derive(Debug)]
pub struct NewsCache {
    /// Articles by category index
    articles: Vec<Vec<NewsArticle>>,
    /// Last update time by category index
    last_updated: Vec<Option<Timestamp>>,
    /// Maximum articles per category
    max_articles_per_category: usize,
}

impl View for NewsCache {
    type V = CacheView;

    closed spec fn view(&self) -> CacheView {
        CacheView {
            articles: self.articles@.map_values(|v: Vec<NewsArticle>| v@),
            last_updated: self.last_updated@,
            capacity: self.max_articles_per_category as nat,
        }
    }
}

impl NewsCache {
    /// Create a new news cache
    pub fn new(max_articles_per_category: usize) -> (r: Self)
        ensures
            r@ == CacheView::empty(max_articles_per_category as nat),
            r@.wf(),
    {
        let mut articles: Vec<Vec<NewsArticle>> = Vec::new();
        let mut last_updated: Vec<Option<Timestamp>> = Vec::new();
        let mut i: usize = 0;
        while i < CATEGORY_COUNT
            invariant
                i <= CATEGORY_COUNT,
                articles.len() == i,
                last_updated.len() == i,
                forall|t: int| 0 <= t < i ==> (#[trigger] articles@[t])@ == Seq::<NewsArticle>::empty(),
                forall|t: int| 0 <= t < i ==> #[trigger] last_updated@[t] == None::<Timestamp>,
            decreases CATEGORY_COUNT - i,
        {
            articles.push(Vec::new());
            last_updated.push(None);
            i = i + 1;
        }
        let r = NewsCache { articles, last_updated, max_articles_per_category };
        assert(r@.articles =~= CacheView::empty(max_articles_per_category as nat).articles);
        assert(r@.last_updated =~= CacheView::empty(max_articles_per_category as nat).last_updated);
        r
    }

    /// The most articles kept per category.
    pub fn max_articles_per_category(&self) -> (r: usize)
        ensures
            r == self@.capacity,
    {
        self.max_articles_per_category
    }

    /// Get articles for a specific category
    pub fn get_category_news(&self, category: &NewsCategory) -> (r: Result<Vec<NewsArticle>, Error>)
        requires
            self@.wf(),
        ensures
            r matches Ok(v) && v@ == self@.news(*category),
    {
        let src = &self.articles[category.index()];
        let mut out: Vec<NewsArticle> = Vec::new();
        let mut i: usize = 0;
        while i < src.len()
            invariant
                i <= src.len(),
                out@ == src@.take(i as int),
            decreases src.len() - i,
        {
            out.push(src[i].duplicate());
            assert(src@.take(i as int).push(src@[i as int]) == src@.take(i + 1));
            i = i + 1;
        }
        assert(src@.take(src.len() as int) == src@);
        Ok(out)
    }

    /// Set articles for a specific category at time `now`: the category then
    /// holds the first `max_articles_per_category` of `articles`.
    pub fn set_category_news_at(&mut self, category: NewsCategory, articles: Vec<NewsArticle>, now: Timestamp)
        requires
            old(self)@.wf(),
        ensures
            final(self)@ == old(self)@.set(category, articles@, now),
            final(self)@.wf(),
    {
        let cap = self.max_articles_per_category;
        let mut kept = articles;
        if kept.len() > cap {
            kept.truncate(cap);
        }
        let idx = category.index();
        let ghost before = self@;
        self.articles.set(idx, kept);
        self.last_updated.set(idx, Some(now));
        assert(self@.articles =~= before.set(category, articles@, now).articles);
    }


    /// Search articles by query string: the articles (of the given category,
    /// or of every category in [`NewsCategory::all`] order) whose title or
    /// description contains the query, compared in lowercase.
    pub fn search(&self, query: &str, category: Option<&NewsCategory>) -> (r: Result<Vec<NewsArticle>, Error>)
        requires
            self@.wf(),
        ensures
            r matches Ok(v) && v@ == self@.search_result(query@, chosen(category)),
    {
        let lq = lowercase_chars(&query.to_owned());
        let mut out: Vec<NewsArticle> = Vec::new();
        match category {
            Some(c) => {
                push_matching(&mut out, &self.articles[c.index()], &lq);
                assert(out@ == matching(self@.news(*c), lowercase(query@)));
            },
            None => {
                let ghost lists = self@.articles;
                let mut i: usize = 0;
                assert(lists.take(0) == Seq::<Seq<NewsArticle>>::empty());
                while i < self.articles.len()
                    invariant
                        i <= self.articles.len() == CATEGORY_COUNT,
                        lists == self@.articles,
                        lq@ == lowercase(query@),
                        out@ == matching(concat_lists(lists.take(i as int)), lq@),
                    decreases self.articles.len() - i,
                {
                    assert(lists.take(i + 1).drop_last() == lists.take(i as int));
                    assert(lists.take(i + 1).last() == self.articles@[i as int]@);
                    proof {
                        lemma_matching_concat(concat_lists(lists.take(i as int)), lists[i as int], lq@);
                    }
                    push_matching(&mut out, &self.articles[i], &lq);
                    i = i + 1;
                }
                assert(lists.take(CATEGORY_COUNT as int) == lists);
            },
        }
        Ok(out)
    }

    /// Get all available categories with article counts
    pub fn get_all_categories(&self) -> (r: Result<Vec<(NewsCategory, usize)>, Error>)
        requires
            self@.wf(),
        ensures
            r matches Ok(v) && v@ == category_counts(self@),
    {
        let cats = NewsCategory::all();
        let mut out: Vec<(NewsCategory, usize)> = Vec::new();
        let mut i: usize = 0;
        while i < cats.len()
            invariant
                i <= cats.len() == CATEGORY_COUNT,
                cats@ == all_categories(),
                self@.wf(),
                out@ == category_counts(self@).take(i as int),
            decreases cats.len() - i,
        {
            let c = cats[i];
            proof {
                lemma_all_categories_lists_each_once(c);
            }
            let count = self.articles[c.index()].len();
            out.push((c, count));
            assert(category_counts(self@).take(i + 1) == category_counts(self@).take(i as int).push(
                (c, count),
            ));
            i = i + 1;
        }
        assert(category_counts(self@).take(CATEGORY_COUNT as int) == category_counts(self@));
        Ok(out)
    }

    /// Get last update time for a category
    pub fn get_last_updated(&self, category: &NewsCategory) -> (r: Result<Option<Timestamp>, Error>)
        requires
            self@.wf(),
        ensures
            r == Ok::<Option<Timestamp>, Error>(self@.updated(*category)),
    {
        Ok(self.last_updated[category.index()])
    }

    /// Get total article count across all categories. The count must fit in a
    /// `usize`, as it does for every cache held in memory.
    pub fn total_article_count(&self) -> (r: Result<usize, Error>)
        requires
            self@.wf(),
            self@.total() <= usize::MAX,
        ensures
            r matches Ok(n) && n == self@.total(),
    {
        let ghost lists = self@.articles;
        let mut sum: usize = 0;
        let mut i: usize = 0;
        assert(lists.take(0) == Seq::<Seq<NewsArticle>>::empty());
        while i < self.articles.len()
            invariant
                i <= self.articles.len() == CATEGORY_COUNT,
                lists == self@.articles,
                total_len(lists) <= usize::MAX,
                sum == total_len(lists.take(i as int)),
            decreases self.articles.len() - i,
        {
            assert(lists.take(i + 1).drop_last() == lists.take(i as int));
            assert(lists.take(i + 1).last() == self.articles@[i as int]@);
            proof {
                lemma_total_len_prefix(lists, i + 1);
            }
            sum = sum + self.articles[i].len();
            i = i + 1;
        }
        assert(lists.take(CATEGORY_COUNT as int) == lists);
        Ok(sum)
    }

    /// Clear all cached articles
    pub fn clear(&mut self) -> (r: Result<(), Error>)
        requires
            old(self)@.wf(),
        ensures
            r is Ok,
            final(self)@ == CacheView::empty(old(self)@.capacity),
            final(self)@.wf(),
    {
        *self = NewsCache::new(self.max_articles_per_category);
        Ok(())
    }

    /// Set articles for a specific category, stamped with the current time.
    pub fn set_category_news(&mut self, category: NewsCategory, articles: Vec<NewsArticle>) -> (r: Result<(), Error>)
        requires
            old(self)@.wf(),
        ensures
            r is Ok,
            exists|now: Timestamp| chrono_represents(now.secs) && now.nanos < 1_000_000_000 && final(self)@ == old(self)@.set(category, articles@, now),
            final(self)@.wf(),
    {
        let now = now_timestamp();
        self.set_category_news_at(category, articles, now);
        Ok(())
    }
}


/// Reading a category after setting it gives back the first
/// `capacity` of the articles set, stamped with the time of the set, and
/// leaves every other category as it was.
pub proof fn law_read_after_set(v: CacheView, c: NewsCategory, d: NewsCategory, arts: Seq<NewsArticle>, now: Timestamp)
    requires
        v.wf(),
    ensures
        v.set(c, arts, now).wf(),
        v.set(c, arts, now).news(c) == (if arts.len() <= v.capacity { arts } else { arts.take(v.capacity as int) }),
        v.set(c, arts, now).updated(c) == Some(now),
        v.set(c, arts, now).news(c).len() == if arts.len() <= v.capacity { arts.len() } else { v.capacity },
        d != c ==> v.set(c, arts, now).news(d) == v.news(d),
        d != c ==> v.set(c, arts, now).updated(d) == v.updated(d),
{
    lemma_all_categories_lists_each_once(c);
    lemma_all_categories_lists_each_once(d);
    if d != c {
        assert(category_index(d) != category_index(c)) by {
            assert(all_categories()[category_index(c) as int] == c);
            assert(all_categories()[category_index(d) as int] == d);
        }
    }
}

/// Setting two different categories gives the same cache in either order,
/// so the order in which fetched categories are stored does not matter.
pub proof fn law_sets_of_distinct_categories_commute(
    v: CacheView,
    c: NewsCategory,
    a: Seq<NewsArticle>,
    d: NewsCategory,
    b: Seq<NewsArticle>,
    now: Timestamp,
)
    requires
        v.wf(),
        c != d,
    ensures
        v.set(c, a, now).set(d, b, now) == v.set(d, b, now).set(c, a, now),
{
    lemma_all_categories_lists_each_once(c);
    lemma_all_categories_lists_each_once(d);
    assert(category_index(d) != category_index(c)) by {
        assert(all_categories()[category_index(c) as int] == c);
        assert(all_categories()[category_index(d) as int] == d);
    }
    let x = v.set(c, a, now).set(d, b, now);
    let y = v.set(d, b, now).set(c, a, now);
    assert(x.articles =~= y.articles);
    assert(x.last_updated =~= y.last_updated);
}

/// A new or cleared cache holds no article and no update time.
pub proof fn law_empty_cache(capacity: nat, c: NewsCategory)
    requires
        capacity <= usize::MAX,
    ensures
        CacheView::empty(capacity).wf(),
        CacheView::empty(capacity).news(c) == Seq::<NewsArticle>::empty(),
        CacheView::empty(capacity).updated(c) is None,
        CacheView::empty(capacity).total() == 0,
{
    lemma_all_categories_lists_each_once(c);
    let e = CacheView::empty(capacity);
    assert forall|k: int| 0 <= k <= CATEGORY_COUNT implies total_len(#[trigger] e.articles.take(k)) == 0 by {
        lemma_total_len_of_empties(e.articles, k);
    }
    assert(e.articles.take(CATEGORY_COUNT as int) == e.articles);
}

proof fn lemma_total_len_of_empties(lists: Seq<Seq<NewsArticle>>, k: int)
    requires
        0 <= k <= lists.len(),
        forall|i: int| 0 <= i < lists.len() ==> (#[trigger] lists[i]).len() == 0,
    ensures
        total_len(lists.take(k)) == 0,
    decreases k,
{
    if k > 0 {
        lemma_total_len_of_empties(lists, k - 1);
        assert(lists.take(k).drop_last() == lists.take(k - 1));
    }
}

/// What a search finds are articles of the searched category (or of the
/// cache) whose title or description contains the query, in lowercase; and
/// every such article is found.
pub proof fn law_search_finds_exactly_the_matches(s: Seq<NewsArticle>, q: Seq<char>)
    ensures
        forall|i: int| 0 <= i < matching(s, q).len() ==> article_matches(#[trigger] matching(s, q)[i], q) && s.contains(matching(s, q)[i]),
        forall|i: int| 0 <= i < s.len() && article_matches(#[trigger] s[i], q) ==> matching(s, q).contains(s[i]),
        matching(s, q).len() <= s.len(),
    decreases s.len(),
{
    if s.len() > 0 {
        law_search_finds_exactly_the_matches(s.drop_last(), q);
        let m = matching(s, q);
        let pm = matching(s.drop_last(), q);
        assert forall|i: int| 0 <= i < m.len() implies article_matches(#[trigger] m[i], q) && s.contains(m[i]) by {
            if i < pm.len() {
                assert(m[i] == pm[i]);
                let j = choose|j: int| 0 <= j < s.drop_last().len() && s.drop_last()[j] == pm[i];
                assert(s[j] == m[i]);
            } else {
                assert(m[i] == s.last());
                assert(s[s.len() - 1] == m[i]);
            }
        }
        assert forall|i: int| 0 <= i < s.len() && article_matches(#[trigger] s[i], q) implies m.contains(s[i]) by {
            if i < s.len() - 1 {
                assert(s.drop_last()[i] == s[i]);
                let j = choose|j: int| 0 <= j < pm.len() && pm[j] == s[i];
                assert(m[j] == s[i]);
            } else {
                assert(m[m.len() - 1] == s[i]);
            }
        }
    }
}

/// Searching every category finds what searching each category finds,
/// category by category in [`all_categories`] order.
pub proof fn law_search_all_is_search_each(v: CacheView, q: Seq<char>)
    requires
        v.wf(),
    ensures
        v.search_result(q, None) == concat_lists(
            Seq::new(CATEGORY_COUNT as nat, |i: int| v.search_result(q, Some(all_categories()[i]))),
        ),
{
    let lq = lowercase(q);
    let per = Seq::new(CATEGORY_COUNT as nat, |i: int| v.search_result(q, Some(all_categories()[i])));
    assert forall|i: int| 0 <= i < CATEGORY_COUNT implies #[trigger] per[i] == matching(v.articles[i], lq) by {
        lemma_all_categories_lists_each_once(all_categories()[i]);
    }
    lemma_matching_lists(v.articles, per, lq);
}

proof fn lemma_matching_lists(lists: Seq<Seq<NewsArticle>>, per: Seq<Seq<NewsArticle>>, q: Seq<char>)
    requires
        lists.len() == per.len(),
        forall|i: int| 0 <= i < lists.len() ==> #[trigger] per[i] == matching(lists[i], q),
    ensures
        matching(concat_lists(lists), q) == concat_lists(per),
    decreases lists.len(),
{
    if lists.len() > 0 {
        lemma_matching_lists(lists.drop_last(), per.drop_last(), q);
        lemma_matching_concat(concat_lists(lists.drop_last()), lists.last(), q);
    }
}

/// The sum of the counts of a list of category counts.
pub open spec fn count_sum(counts: Seq<(NewsCategory, usize)>) -> nat
    decreases counts.len(),
{
    if counts.len() == 0 {
        0
    } else {
        count_sum(counts.drop_last()) + counts.last().1 as nat
    }
}

proof fn lemma_count_sum_prefix(v: CacheView, k: int)
    requires
        v.wf(),
        0 <= k <= CATEGORY_COUNT,
    ensures
        count_sum(category_counts(v).take(k)) == total_len(v.articles.take(k)),
    decreases k,
{
    if k > 0 {
        lemma_count_sum_prefix(v, k - 1);
        assert(category_counts(v).take(k).drop_last() == category_counts(v).take(k - 1));
        assert(v.articles.take(k).drop_last() == v.articles.take(k - 1));
        assert(v.articles[k - 1].len() <= v.capacity);
    }
}

/// The counts listed per category are the lengths of what reading each
/// category gives, and they add up to the total.
pub proof fn law_counts_agree(v: CacheView)
    requires
        v.wf(),
    ensures
        category_counts(v).len() == CATEGORY_COUNT,
        forall|i: int| 0 <= i < CATEGORY_COUNT ==> (#[trigger] category_counts(v)[i]).0 == all_categories()[i]
            && category_counts(v)[i].1 == v.news(all_categories()[i]).len(),
        count_sum(category_counts(v)) == v.total(),
{
    assert forall|i: int| 0 <= i < CATEGORY_COUNT implies (#[trigger] category_counts(v)[i]).0 == all_categories()[i]
        && category_counts(v)[i].1 == v.news(all_categories()[i]).len() by {
        lemma_all_categories_lists_each_once(all_categories()[i]);
    }
    lemma_count_sum_prefix(v, CATEGORY_COUNT as int);
    assert(category_counts(v).take(CATEGORY_COUNT as int) == category_counts(v));
    assert(v.articles.take(CATEGORY_COUNT as int) == v.articles);
}

/// A write to the cache: setting a category at a time, or clearing it all.
pub ghost enum CacheWrite {
    Store(NewsCategory, Seq<NewsArticle>, Timestamp),
    Clear,
}

/// The cache after a history of writes, in order.
pub open spec fn after_writes(v: CacheView, writes: Seq<CacheWrite>) -> CacheView
    decreases writes.len(),
{
    if writes.len() == 0 {
        v
    } else {
        match writes.last() {
            CacheWrite::Store(c, arts, now) => after_writes(v, writes.drop_last()).set(c, arts, now),
            CacheWrite::Clear => CacheView::empty(after_writes(v, writes.drop_last()).capacity),
        }
    }
}

/// Whether a write sets category `d`.
pub open spec fn writes_category(w: CacheWrite, d: NewsCategory) -> bool {
    match w {
        CacheWrite::Store(c, _, _) => c == d,
        CacheWrite::Clear => false,
    }
}

/// Whether a history of writes sets category `d`.
pub open spec fn sets_category(writes: Seq<CacheWrite>, d: NewsCategory) -> bool {
    exists|i: int| 0 <= i < writes.len() && writes_category(#[trigger] writes[i], d)
}

/// Over any history of writes to a new cache (of `set_category_news_at`,
/// `set_category_news` and `clear`), a category that was never set holds no
/// article and no update time; the cache stays well formed and keeps its
/// capacity.
pub proof fn law_unset_category_stays_empty(capacity: nat, writes: Seq<CacheWrite>, d: NewsCategory)
    requires
        capacity <= usize::MAX,
        !sets_category(writes, d),
    ensures
        after_writes(CacheView::empty(capacity), writes).wf(),
        after_writes(CacheView::empty(capacity), writes).capacity == capacity,
        after_writes(CacheView::empty(capacity), writes).news(d) == Seq::<NewsArticle>::empty(),
        after_writes(CacheView::empty(capacity), writes).updated(d) is None,
    decreases writes.len(),
{
    law_empty_cache(capacity, d);
    if writes.len() > 0 {
        let rest = writes.drop_last();
        assert(!sets_category(rest, d)) by {
            if sets_category(rest, d) {
                let i = choose|i: int| 0 <= i < rest.len() && writes_category(#[trigger] rest[i], d);
                assert(writes[i] == rest[i]);
            }
        }
        law_unset_category_stays_empty(capacity, rest, d);
        let prev = after_writes(CacheView::empty(capacity), rest);
        match writes.last() {
            CacheWrite::Store(c, arts, now) => {
                assert(writes[writes.len() - 1] == writes.last());
                law_read_after_set(prev, c, d, arts, now);
            },
            CacheWrite::Clear => {},
        }
    }
}

impl std::str::FromStr for NewsCategory {
    type Err = Error;

    fn from_str(s: &str) -> (r: Result<NewsCategory, Error>)
        ensures
            category_for_key(lowercase(s@)) matches Some(c) ==> r == Ok::<NewsCategory, Error>(c),
            category_for_key(lowercase(s@)) is None ==> (r matches Err(e)
                && is_invalid_category_error(e, s@)),
            all_simple(s@) ==> match category_for_key(ascii_lowercase(s@)) {
                Some(c) => r == Ok::<NewsCategory, Error>(c),
                None => r is Err,
            },
    {
        NewsCategory::parse(s)
    }
}

} // verus!
