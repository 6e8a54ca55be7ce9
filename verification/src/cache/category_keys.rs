//! The category names that parse back to their category.

use vstd::prelude::*;

use super::news_cache::{canonical_key, category_for_key, display_name_of, NewsCategory};
use crate::text::{all_simple, ascii_lowercase, simple_char};

verus! {

/// The lengths and first characters of the names that categories are parsed
/// from, enough to tell any two of them apart.
proof fn lemma_key_facts()
    ensures
        "technology"@.len() == 10,
        "technology"@[0] == 't',
        "technology"@[1] == 'e',
        "technology"@[2] == 'c',
        "technology"@[3] == 'h',
        "tech"@.len() == 4,
        "tech"@[0] == 't',
        "tech"@[1] == 'e',
        "tech"@[2] == 'c',
        "tech"@[3] == 'h',
        "science"@.len() == 7,
        "science"@[0] == 's',
        "science"@[1] == 'c',
        "science"@[2] == 'i',
        "science"@[3] == 'e',
        "hackernews"@.len() == 10,
        "hackernews"@[0] == 'h',
        "hackernews"@[1] == 'a',
        "hackernews"@[2] == 'c',
        "hackernews"@[3] == 'k',
        "hn"@.len() == 2,
        "hn"@[0] == 'h',
        "hn"@[1] == 'n',
        "instant"@.len() == 7,
        "instant"@[0] == 'i',
        "instant"@[1] == 'n',
        "instant"@[2] == 's',
        "instant"@[3] == 't',
        "即时新闻"@.len() == 4,
        "即时新闻"@[0] == '即',
        "即时新闻"@[1] == '时',
        "即时新闻"@[2] == '新',
        "即时新闻"@[3] == '闻',
        "headlines"@.len() == 9,
        "headlines"@[0] == 'h',
        "headlines"@[1] == 'e',
        "headlines"@[2] == 'a',
        "headlines"@[3] == 'd',
        "要闻导读"@.len() == 4,
        "要闻导读"@[0] == '要',
        "要闻导读"@[1] == '闻',
        "要闻导读"@[2] == '导',
        "要闻导读"@[3] == '读',
        "politics"@.len() == 8,
        "politics"@[0] == 'p',
        "politics"@[1] == 'o',
        "politics"@[2] == 'l',
        "politics"@[3] == 'i',
        "时政新闻"@.len() == 4,
        "时政新闻"@[0] == '时',
        "时政新闻"@[1] == '政',
        "时政新闻"@[2] == '新',
        "时政新闻"@[3] == '闻',
        "eastwest"@.len() == 8,
        "eastwest"@[0] == 'e',
        "eastwest"@[1] == 'a',
        "eastwest"@[2] == 's',
        "eastwest"@[3] == 't',
        "东西问"@.len() == 3,
        "东西问"@[0] == '东',
        "东西问"@[1] == '西',
        "东西问"@[2] == '问',
        "society"@.len() == 7,
        "society"@[0] == 's',
        "society"@[1] == 'o',
        "society"@[2] == 'c',
        "society"@[3] == 'i',
        "社会新闻"@.len() == 4,
        "社会新闻"@[0] == '社',
        "社会新闻"@[1] == '会',
        "社会新闻"@[2] == '新',
        "社会新闻"@[3] == '闻',
        "finance"@.len() == 7,
        "finance"@[0] == 'f',
        "finance"@[1] == 'i',
        "finance"@[2] == 'n',
        "finance"@[3] == 'a',
        "财经新闻"@.len() == 4,
        "财经新闻"@[0] == '财',
        "财经新闻"@[1] == '经',
        "财经新闻"@[2] == '新',
        "财经新闻"@[3] == '闻',
        "life"@.len() == 4,
        "life"@[0] == 'l',
        "life"@[1] == 'i',
        "life"@[2] == 'f',
        "life"@[3] == 'e',
        "生活"@.len() == 2,
        "生活"@[0] == '生',
        "生活"@[1] == '活',
        "wellness"@.len() == 8,
        "wellness"@[0] == 'w',
        "wellness"@[1] == 'e',
        "wellness"@[2] == 'l',
        "wellness"@[3] == 'l',
        "健康"@.len() == 2,
        "健康"@[0] == '健',
        "健康"@[1] == '康',
        "greaterbayarea"@.len() == 14,
        "greaterbayarea"@[0] == 'g',
        "greaterbayarea"@[1] == 'r',
        "greaterbayarea"@[2] == 'e',
        "greaterbayarea"@[3] == 'a',
        "大湾区"@.len() == 3,
        "大湾区"@[0] == '大',
        "大湾区"@[1] == '湾',
        "大湾区"@[2] == '区',
        "chinese"@.len() == 7,
        "chinese"@[0] == 'c',
        "chinese"@[1] == 'h',
        "chinese"@[2] == 'i',
        "chinese"@[3] == 'n',
        "华人"@.len() == 2,
        "华人"@[0] == '华',
        "华人"@[1] == '人',
        "video"@.len() == 5,
        "video"@[0] == 'v',
        "video"@[1] == 'i',
        "video"@[2] == 'd',
        "video"@[3] == 'e',
        "视频"@.len() == 2,
        "视频"@[0] == '视',
        "视频"@[1] == '频',
        "photo"@.len() == 5,
        "photo"@[0] == 'p',
        "photo"@[1] == 'h',
        "photo"@[2] == 'o',
        "photo"@[3] == 't',
        "图片"@.len() == 2,
        "图片"@[0] == '图',
        "图片"@[1] == '片',
        "creative"@.len() == 8,
        "creative"@[0] == 'c',
        "creative"@[1] == 'r',
        "creative"@[2] == 'e',
        "creative"@[3] == 'a',
        "创意"@.len() == 2,
        "创意"@[0] == '创',
        "创意"@[1] == '意',
        "live"@.len() == 4,
        "live"@[0] == 'l',
        "live"@[1] == 'i',
        "live"@[2] == 'v',
        "live"@[3] == 'e',
        "直播"@.len() == 2,
        "直播"@[0] == '直',
        "直播"@[1] == '播',
        "education"@.len() == 9,
        "education"@[0] == 'e',
        "education"@[1] == 'd',
        "education"@[2] == 'u',
        "education"@[3] == 'c',
        "教育"@.len() == 2,
        "教育"@[0] == '教',
        "教育"@[1] == '育',
        "law"@.len() == 3,
        "law"@[0] == 'l',
        "law"@[1] == 'a',
        "law"@[2] == 'w',
        "法治"@.len() == 2,
        "法治"@[0] == '法',
        "法治"@[1] == '治',
        "unitedfront"@.len() == 11,
        "unitedfront"@[0] == 'u',
        "unitedfront"@[1] == 'n',
        "unitedfront"@[2] == 'i',
        "unitedfront"@[3] == 't',
        "同心"@.len() == 2,
        "同心"@[0] == '同',
        "同心"@[1] == '心',
        "ethnicunity"@.len() == 11,
        "ethnicunity"@[0] == 'e',
        "ethnicunity"@[1] == 't',
        "ethnicunity"@[2] == 'h',
        "ethnicunity"@[3] == 'n',
        "铸牢中华民族共同体意识"@.len() == 11,
        "铸牢中华民族共同体意识"@[0] == '铸',
        "铸牢中华民族共同体意识"@[1] == '牢',
        "铸牢中华民族共同体意识"@[2] == '中',
        "铸牢中华民族共同体意识"@[3] == '华',
        "theory"@.len() == 6,
        "theory"@[0] == 't',
        "theory"@[1] == 'h',
        "theory"@[2] == 'e',
        "theory"@[3] == 'o',
        "理论"@.len() == 2,
        "理论"@[0] == '理',
        "理论"@[1] == '论',
        "asean"@.len() == 5,
        "asean"@[0] == 'a',
        "asean"@[1] == 's',
        "asean"@[2] == 'e',
        "asean"@[3] == 'a',
        "中国—东盟商贸资讯平台"@.len() == 11,
        "中国—东盟商贸资讯平台"@[0] == '中',
        "中国—东盟商贸资讯平台"@[1] == '国',
        "中国—东盟商贸资讯平台"@[2] == '—',
        "中国—东盟商贸资讯平台"@[3] == '东',
        "weibohot"@.len() == 8,
        "weibohot"@[0] == 'w',
        "weibohot"@[1] == 'e',
        "weibohot"@[2] == 'i',
        "weibohot"@[3] == 'b',
        "微博热搜"@.len() == 4,
        "微博热搜"@[0] == '微',
        "微博热搜"@[1] == '博',
        "微博热搜"@[2] == '热',
        "微博热搜"@[3] == '搜',
        "baiduhot"@.len() == 8,
        "baiduhot"@[0] == 'b',
        "baiduhot"@[1] == 'a',
        "baiduhot"@[2] == 'i',
        "baiduhot"@[3] == 'd',
        "百度热搜"@.len() == 4,
        "百度热搜"@[0] == '百',
        "百度热搜"@[1] == '度',
        "百度热搜"@[2] == '热',
        "百度热搜"@[3] == '搜',
        "zhihuhot"@.len() == 8,
        "zhihuhot"@[0] == 'z',
        "zhihuhot"@[1] == 'h',
        "zhihuhot"@[2] == 'i',
        "zhihuhot"@[3] == 'h',
        "知乎热榜"@.len() == 4,
        "知乎热榜"@[0] == '知',
        "知乎热榜"@[1] == '乎',
        "知乎热榜"@[2] == '热',
        "知乎热榜"@[3] == '榜',
        "douyinhot"@.len() == 9,
        "douyinhot"@[0] == 'd',
        "douyinhot"@[1] == 'o',
        "douyinhot"@[2] == 'u',
        "douyinhot"@[3] == 'y',
        "抖音热点"@.len() == 4,
        "抖音热点"@[0] == '抖',
        "抖音热点"@[1] == '音',
        "抖音热点"@[2] == '热',
        "抖音热点"@[3] == '点',
        "bilibilihot"@.len() == 11,
        "bilibilihot"@[0] == 'b',
        "bilibilihot"@[1] == 'i',
        "bilibilihot"@[2] == 'l',
        "bilibilihot"@[3] == 'i',
        "b站热搜"@.len() == 4,
        "b站热搜"@[0] == 'b',
        "b站热搜"@[1] == '站',
        "b站热搜"@[2] == '热',
        "b站热搜"@[3] == '搜',
        "tiebahot"@.len() == 8,
        "tiebahot"@[0] == 't',
        "tiebahot"@[1] == 'i',
        "tiebahot"@[2] == 'e',
        "tiebahot"@[3] == 'b',
        "贴吧热议"@.len() == 4,
        "贴吧热议"@[0] == '贴',
        "贴吧热议"@[1] == '吧',
        "贴吧热议"@[2] == '热',
        "贴吧热议"@[3] == '议',
        "toutiaohot"@.len() == 10,
        "toutiaohot"@[0] == 't',
        "toutiaohot"@[1] == 'o',
        "toutiaohot"@[2] == 'u',
        "toutiaohot"@[3] == 't',
        "今日头条热点"@.len() == 6,
        "今日头条热点"@[0] == '今',
        "今日头条热点"@[1] == '日',
        "今日头条热点"@[2] == '头',
        "今日头条热点"@[3] == '条',
        "wallstreetcnhot"@.len() == 15,
        "wallstreetcnhot"@[0] == 'w',
        "wallstreetcnhot"@[1] == 'a',
        "wallstreetcnhot"@[2] == 'l',
        "wallstreetcnhot"@[3] == 'l',
        "华尔街见闻热门"@.len() == 7,
        "华尔街见闻热门"@[0] == '华',
        "华尔街见闻热门"@[1] == '尔',
        "华尔街见闻热门"@[2] == '街',
        "华尔街见闻热门"@[3] == '见',
        "clshot"@.len() == 6,
        "clshot"@[0] == 'c',
        "clshot"@[1] == 'l',
        "clshot"@[2] == 's',
        "clshot"@[3] == 'h',
        "财联社热门"@.len() == 5,
        "财联社热门"@[0] == '财',
        "财联社热门"@[1] == '联',
        "财联社热门"@[2] == '社',
        "财联社热门"@[3] == '热',
        "thepaperhot"@.len() == 11,
        "thepaperhot"@[0] == 't',
        "thepaperhot"@[1] == 'h',
        "thepaperhot"@[2] == 'e',
        "thepaperhot"@[3] == 'p',
        "澎湃热门"@.len() == 4,
        "澎湃热门"@[0] == '澎',
        "澎湃热门"@[1] == '湃',
        "澎湃热门"@[2] == '热',
        "澎湃热门"@[3] == '门',
        "ifenghot"@.len() == 8,
        "ifenghot"@[0] == 'i',
        "ifenghot"@[1] == 'f',
        "ifenghot"@[2] == 'e',
        "ifenghot"@[3] == 'n',
        "凤凰网热门"@.len() == 5,
        "凤凰网热门"@[0] == '凤',
        "凤凰网热门"@[1] == '凰',
        "凤凰网热门"@[2] == '网',
        "凤凰网热门"@[3] == '热',
{
    reveal_strlit("technology");
    reveal_strlit("tech");
    reveal_strlit("science");
    reveal_strlit("hackernews");
    reveal_strlit("hn");
    reveal_strlit("instant");
    reveal_strlit("即时新闻");
    reveal_strlit("headlines");
    reveal_strlit("要闻导读");
    reveal_strlit("politics");
    reveal_strlit("时政新闻");
    reveal_strlit("eastwest");
    reveal_strlit("东西问");
    reveal_strlit("society");
    reveal_strlit("社会新闻");
    reveal_strlit("finance");
    reveal_strlit("财经新闻");
    reveal_strlit("life");
    reveal_strlit("生活");
    reveal_strlit("wellness");
    reveal_strlit("健康");
    reveal_strlit("greaterbayarea");
    reveal_strlit("大湾区");
    reveal_strlit("chinese");
    reveal_strlit("华人");
    reveal_strlit("video");
    reveal_strlit("视频");
    reveal_strlit("photo");
    reveal_strlit("图片");
    reveal_strlit("creative");
    reveal_strlit("创意");
    reveal_strlit("live");
    reveal_strlit("直播");
    reveal_strlit("education");
    reveal_strlit("教育");
    reveal_strlit("law");
    reveal_strlit("法治");
    reveal_strlit("unitedfront");
    reveal_strlit("同心");
    reveal_strlit("ethnicunity");
    reveal_strlit("铸牢中华民族共同体意识");
    reveal_strlit("theory");
    reveal_strlit("理论");
    reveal_strlit("asean");
    reveal_strlit("中国—东盟商贸资讯平台");
    reveal_strlit("weibohot");
    reveal_strlit("微博热搜");
    reveal_strlit("baiduhot");
    reveal_strlit("百度热搜");
    reveal_strlit("zhihuhot");
    reveal_strlit("知乎热榜");
    reveal_strlit("douyinhot");
    reveal_strlit("抖音热点");
    reveal_strlit("bilibilihot");
    reveal_strlit("b站热搜");
    reveal_strlit("tiebahot");
    reveal_strlit("贴吧热议");
    reveal_strlit("toutiaohot");
    reveal_strlit("今日头条热点");
    reveal_strlit("wallstreetcnhot");
    reveal_strlit("华尔街见闻热门");
    reveal_strlit("clshot");
    reveal_strlit("财联社热门");
    reveal_strlit("thepaperhot");
    reveal_strlit("澎湃热门");
    reveal_strlit("ifenghot");
    reveal_strlit("凤凰网热门");
}

/// A category's lowercase name parses back to that category.
pub proof fn law_category_name_parses_back(c: NewsCategory)
    ensures
        category_for_key(canonical_key(c)) == Some(c),
{
    lemma_key_facts();
    match c {
        NewsCategory::Technology => assert(category_for_key("technology"@) == Some(NewsCategory::Technology)),
        NewsCategory::Science => assert(category_for_key("science"@) == Some(NewsCategory::Science)),
        NewsCategory::HackerNews => assert(category_for_key("hackernews"@) == Some(NewsCategory::HackerNews)),
        NewsCategory::Instant => assert(category_for_key("instant"@) == Some(NewsCategory::Instant)),
        NewsCategory::Headlines => assert(category_for_key("headlines"@) == Some(NewsCategory::Headlines)),
        NewsCategory::Politics => assert(category_for_key("politics"@) == Some(NewsCategory::Politics)),
        NewsCategory::EastWest => assert(category_for_key("eastwest"@) == Some(NewsCategory::EastWest)),
        NewsCategory::Society => assert(category_for_key("society"@) == Some(NewsCategory::Society)),
        NewsCategory::Finance => assert(category_for_key("finance"@) == Some(NewsCategory::Finance)),
        NewsCategory::Life => assert(category_for_key("life"@) == Some(NewsCategory::Life)),
        NewsCategory::Wellness => assert(category_for_key("wellness"@) == Some(NewsCategory::Wellness)),
        NewsCategory::GreaterBayArea => assert(category_for_key("greaterbayarea"@) == Some(NewsCategory::GreaterBayArea)),
        NewsCategory::Chinese => assert(category_for_key("chinese"@) == Some(NewsCategory::Chinese)),
        NewsCategory::Video => assert(category_for_key("video"@) == Some(NewsCategory::Video)),
        NewsCategory::Photo => assert(category_for_key("photo"@) == Some(NewsCategory::Photo)),
        NewsCategory::Creative => assert(category_for_key("creative"@) == Some(NewsCategory::Creative)),
        NewsCategory::Live => assert(category_for_key("live"@) == Some(NewsCategory::Live)),
        NewsCategory::Education => assert(category_for_key("education"@) == Some(NewsCategory::Education)),
        NewsCategory::Law => assert(category_for_key("law"@) == Some(NewsCategory::Law)),
        NewsCategory::UnitedFront => assert(category_for_key("unitedfront"@) == Some(NewsCategory::UnitedFront)),
        NewsCategory::EthnicUnity => assert(category_for_key("ethnicunity"@) == Some(NewsCategory::EthnicUnity)),
        NewsCategory::Theory => assert(category_for_key("theory"@) == Some(NewsCategory::Theory)),
        NewsCategory::Asean => assert(category_for_key("asean"@) == Some(NewsCategory::Asean)),
        NewsCategory::WeiboHot => assert(category_for_key("weibohot"@) == Some(NewsCategory::WeiboHot)),
        NewsCategory::BaiduHot => assert(category_for_key("baiduhot"@) == Some(NewsCategory::BaiduHot)),
        NewsCategory::ZhihuHot => assert(category_for_key("zhihuhot"@) == Some(NewsCategory::ZhihuHot)),
        NewsCategory::DouyinHot => assert(category_for_key("douyinhot"@) == Some(NewsCategory::DouyinHot)),
        NewsCategory::BilibiliHot => assert(category_for_key("bilibilihot"@) == Some(NewsCategory::BilibiliHot)),
        NewsCategory::TiebaHot => assert(category_for_key("tiebahot"@) == Some(NewsCategory::TiebaHot)),
        NewsCategory::ToutiaoHot => assert(category_for_key("toutiaohot"@) == Some(NewsCategory::ToutiaoHot)),
        NewsCategory::WallstreetcnHot => assert(category_for_key("wallstreetcnhot"@) == Some(NewsCategory::WallstreetcnHot)),
        NewsCategory::ClsHot => assert(category_for_key("clshot"@) == Some(NewsCategory::ClsHot)),
        NewsCategory::ThepaperHot => assert(category_for_key("thepaperhot"@) == Some(NewsCategory::ThepaperHot)),
        NewsCategory::IfengHot => assert(category_for_key("ifenghot"@) == Some(NewsCategory::IfengHot)),
    }
}

/// Every display name is non-empty and made of ASCII, General Punctuation and
/// CJK ideograph characters; lowercased, it names its category, except that
/// of Hacker News ("Hacker News"), which names none.
pub proof fn law_display_names_parse_back(c: NewsCategory)
    ensures
        display_name_of(c).len() > 0,
        all_simple(display_name_of(c)),
        c != NewsCategory::HackerNews ==> category_for_key(ascii_lowercase(display_name_of(c))) == Some(c),
        c == NewsCategory::HackerNews ==> category_for_key(ascii_lowercase(display_name_of(c))) is None,
{
    lemma_key_facts();
    match c {
        NewsCategory::Technology => {
            reveal_strlit("Technology");
            reveal_strlit("technology");
            let d = "Technology"@;
            let k = "technology"@;
            assert(d.len() == 10 && k.len() == 10);
            assert forall|i: int| 0 <= i < d.len() implies simple_char(#[trigger] d[i]) && ascii_lowercase(d)[i] == k[i] by {
                assert(i == 0 || i == 1 || i == 2 || i == 3 || i == 4 || i == 5 || i == 6 || i == 7 || i == 8 || i == 9);
            }
            assert(ascii_lowercase(d) =~= k);
            assert(category_for_key(k) == Some(NewsCategory::Technology));
        },
        NewsCategory::Science => {
            reveal_strlit("Science");
            reveal_strlit("science");
            let d = "Science"@;
            let k = "science"@;
            assert(d.len() == 7 && k.len() == 7);
            assert forall|i: int| 0 <= i < d.len() implies simple_char(#[trigger] d[i]) && ascii_lowercase(d)[i] == k[i] by {
                assert(i == 0 || i == 1 || i == 2 || i == 3 || i == 4 || i == 5 || i == 6);
            }
            assert(ascii_lowercase(d) =~= k);
            assert(category_for_key(k) == Some(NewsCategory::Science));
        },
        NewsCategory::HackerNews => {
            reveal_strlit("Hacker News");
            reveal_strlit("hacker news");
            let d = "Hacker News"@;
            let k = "hacker news"@;
            assert(d.len() == 11 && k.len() == 11);
            assert forall|i: int| 0 <= i < d.len() implies simple_char(#[trigger] d[i]) && ascii_lowercase(d)[i] == k[i] by {
                assert(i == 0 || i == 1 || i == 2 || i == 3 || i == 4 || i == 5 || i == 6 || i == 7 || i == 8 || i == 9 || i == 10);
            }
            assert(ascii_lowercase(d) =~= k);
            assert(category_for_key(k) is None);
        },
        NewsCategory::Instant => {
            reveal_strlit("即时新闻");
            let d = "即时新闻"@;
            let k = "即时新闻"@;
            assert(d.len() == 4 && k.len() == 4);
            assert forall|i: int| 0 <= i < d.len() implies simple_char(#[trigger] d[i]) && ascii_lowercase(d)[i] == k[i] by {
                assert(i == 0 || i == 1 || i == 2 || i == 3);
            }
            assert(ascii_lowercase(d) =~= k);
            assert(category_for_key(k) == Some(NewsCategory::Instant));
        },
        NewsCategory::Headlines => {
            reveal_strlit("要闻导读");
            let d = "要闻导读"@;
            let k = "要闻导读"@;
            assert(d.len() == 4 && k.len() == 4);
            assert forall|i: int| 0 <= i < d.len() implies simple_char(#[trigger] d[i]) && ascii_lowercase(d)[i] == k[i] by {
                assert(i == 0 || i == 1 || i == 2 || i == 3);
            }
            assert(ascii_lowercase(d) =~= k);
            assert(category_for_key(k) == Some(NewsCategory::Headlines));
        },
        NewsCategory::Politics => {
            reveal_strlit("时政新闻");
            let d = "时政新闻"@;
            let k = "时政新闻"@;
            assert(d.len() == 4 && k.len() == 4);
            assert forall|i: int| 0 <= i < d.len() implies simple_char(#[trigger] d[i]) && ascii_lowercase(d)[i] == k[i] by {
                assert(i == 0 || i == 1 || i == 2 || i == 3);
            }
            assert(ascii_lowercase(d) =~= k);
            assert(category_for_key(k) == Some(NewsCategory::Politics));
        },
        NewsCategory::EastWest => {
            reveal_strlit("东西问");
            let d = "东西问"@;
            let k = "东西问"@;
            assert(d.len() == 3 && k.len() == 3);
            assert forall|i: int| 0 <= i < d.len() implies simple_char(#[trigger] d[i]) && ascii_lowercase(d)[i] == k[i] by {
                assert(i == 0 || i == 1 || i == 2);
            }
            assert(ascii_lowercase(d) =~= k);
            assert(category_for_key(k) == Some(NewsCategory::EastWest));
        },
        NewsCategory::Society => {
            reveal_strlit("社会新闻");
            let d = "社会新闻"@;
            let k = "社会新闻"@;
            assert(d.len() == 4 && k.len() == 4);
            assert forall|i: int| 0 <= i < d.len() implies simple_char(#[trigger] d[i]) && ascii_lowercase(d)[i] == k[i] by {
                assert(i == 0 || i == 1 || i == 2 || i == 3);
            }
            assert(ascii_lowercase(d) =~= k);
            assert(category_for_key(k) == Some(NewsCategory::Society));
        },
        NewsCategory::Finance => {
            reveal_strlit("财经新闻");
            let d = "财经新闻"@;
            let k = "财经新闻"@;
            assert(d.len() == 4 && k.len() == 4);
            assert forall|i: int| 0 <= i < d.len() implies simple_char(#[trigger] d[i]) && ascii_lowercase(d)[i] == k[i] by {
                assert(i == 0 || i == 1 || i == 2 || i == 3);
            }
            assert(ascii_lowercase(d) =~= k);
            assert(category_for_key(k) == Some(NewsCategory::Finance));
        },
        NewsCategory::Life => {
            reveal_strlit("生活");
            let d = "生活"@;
            let k = "生活"@;
            assert(d.len() == 2 && k.len() == 2);
            assert forall|i: int| 0 <= i < d.len() implies simple_char(#[trigger] d[i]) && ascii_lowercase(d)[i] == k[i] by {
                assert(i == 0 || i == 1);
            }
            assert(ascii_lowercase(d) =~= k);
            assert(category_for_key(k) == Some(NewsCategory::Life));
        },
        NewsCategory::Wellness => {
            reveal_strlit("健康");
            let d = "健康"@;
            let k = "健康"@;
            assert(d.len() == 2 && k.len() == 2);
            assert forall|i: int| 0 <= i < d.len() implies simple_char(#[trigger] d[i]) && ascii_lowercase(d)[i] == k[i] by {
                assert(i == 0 || i == 1);
            }
            assert(ascii_lowercase(d) =~= k);
            assert(category_for_key(k) == Some(NewsCategory::Wellness));
        },
        NewsCategory::GreaterBayArea => {
            reveal_strlit("大湾区");
            let d = "大湾区"@;
            let k = "大湾区"@;
            assert(d.len() == 3 && k.len() == 3);
            assert forall|i: int| 0 <= i < d.len() implies simple_char(#[trigger] d[i]) && ascii_lowercase(d)[i] == k[i] by {
                assert(i == 0 || i == 1 || i == 2);
            }
            assert(ascii_lowercase(d) =~= k);
            assert(category_for_key(k) == Some(NewsCategory::GreaterBayArea));
        },
        NewsCategory::Chinese => {
            reveal_strlit("华人");
            let d = "华人"@;
            let k = "华人"@;
            assert(d.len() == 2 && k.len() == 2);
            assert forall|i: int| 0 <= i < d.len() implies simple_char(#[trigger] d[i]) && ascii_lowercase(d)[i] == k[i] by {
                assert(i == 0 || i == 1);
            }
            assert(ascii_lowercase(d) =~= k);
            assert(category_for_key(k) == Some(NewsCategory::Chinese));
        },
        NewsCategory::Video => {
            reveal_strlit("视频");
            let d = "视频"@;
            let k = "视频"@;
            assert(d.len() == 2 && k.len() == 2);
            assert forall|i: int| 0 <= i < d.len() implies simple_char(#[trigger] d[i]) && ascii_lowercase(d)[i] == k[i] by {
                assert(i == 0 || i == 1);
            }
            assert(ascii_lowercase(d) =~= k);
            assert(category_for_key(k) == Some(NewsCategory::Video));
        },
        NewsCategory::Photo => {
            reveal_strlit("图片");
            let d = "图片"@;
            let k = "图片"@;
            assert(d.len() == 2 && k.len() == 2);
            assert forall|i: int| 0 <= i < d.len() implies simple_char(#[trigger] d[i]) && ascii_lowercase(d)[i] == k[i] by {
                assert(i == 0 || i == 1);
            }
            assert(ascii_lowercase(d) =~= k);
            assert(category_for_key(k) == Some(NewsCategory::Photo));
        },
        NewsCategory::Creative => {
            reveal_strlit("创意");
            let d = "创意"@;
            let k = "创意"@;
            assert(d.len() == 2 && k.len() == 2);
            assert forall|i: int| 0 <= i < d.len() implies simple_char(#[trigger] d[i]) && ascii_lowercase(d)[i] == k[i] by {
                assert(i == 0 || i == 1);
            }
            assert(ascii_lowercase(d) =~= k);
            assert(category_for_key(k) == Some(NewsCategory::Creative));
        },
        NewsCategory::Live => {
            reveal_strlit("直播");
            let d = "直播"@;
            let k = "直播"@;
            assert(d.len() == 2 && k.len() == 2);
            assert forall|i: int| 0 <= i < d.len() implies simple_char(#[trigger] d[i]) && ascii_lowercase(d)[i] == k[i] by {
                assert(i == 0 || i == 1);
            }
            assert(ascii_lowercase(d) =~= k);
            assert(category_for_key(k) == Some(NewsCategory::Live));
        },
        NewsCategory::Education => {
            reveal_strlit("教育");
            let d = "教育"@;
            let k = "教育"@;
            assert(d.len() == 2 && k.len() == 2);
            assert forall|i: int| 0 <= i < d.len() implies simple_char(#[trigger] d[i]) && ascii_lowercase(d)[i] == k[i] by {
                assert(i == 0 || i == 1);
            }
            assert(ascii_lowercase(d) =~= k);
            assert(category_for_key(k) == Some(NewsCategory::Education));
        },
        NewsCategory::Law => {
            reveal_strlit("法治");
            let d = "法治"@;
            let k = "法治"@;
            assert(d.len() == 2 && k.len() == 2);
            assert forall|i: int| 0 <= i < d.len() implies simple_char(#[trigger] d[i]) && ascii_lowercase(d)[i] == k[i] by {
                assert(i == 0 || i == 1);
            }
            assert(ascii_lowercase(d) =~= k);
            assert(category_for_key(k) == Some(NewsCategory::Law));
        },
        NewsCategory::UnitedFront => {
            reveal_strlit("同心");
            let d = "同心"@;
            let k = "同心"@;
            assert(d.len() == 2 && k.len() == 2);
            assert forall|i: int| 0 <= i < d.len() implies simple_char(#[trigger] d[i]) && ascii_lowercase(d)[i] == k[i] by {
                assert(i == 0 || i == 1);
            }
            assert(ascii_lowercase(d) =~= k);
            assert(category_for_key(k) == Some(NewsCategory::UnitedFront));
        },
        NewsCategory::EthnicUnity => {
            reveal_strlit("铸牢中华民族共同体意识");
            let d = "铸牢中华民族共同体意识"@;
            let k = "铸牢中华民族共同体意识"@;
            assert(d.len() == 11 && k.len() == 11);
            assert forall|i: int| 0 <= i < d.len() implies simple_char(#[trigger] d[i]) && ascii_lowercase(d)[i] == k[i] by {
                assert(i == 0 || i == 1 || i == 2 || i == 3 || i == 4 || i == 5 || i == 6 || i == 7 || i == 8 || i == 9 || i == 10);
            }
            assert(ascii_lowercase(d) =~= k);
            assert(category_for_key(k) == Some(NewsCategory::EthnicUnity));
        },
        NewsCategory::Theory => {
            reveal_strlit("理论");
            let d = "理论"@;
            let k = "理论"@;
            assert(d.len() == 2 && k.len() == 2);
            assert forall|i: int| 0 <= i < d.len() implies simple_char(#[trigger] d[i]) && ascii_lowercase(d)[i] == k[i] by {
                assert(i == 0 || i == 1);
            }
            assert(ascii_lowercase(d) =~= k);
            assert(category_for_key(k) == Some(NewsCategory::Theory));
        },
        NewsCategory::Asean => {
            reveal_strlit("中国—东盟商贸资讯平台");
            let d = "中国—东盟商贸资讯平台"@;
            let k = "中国—东盟商贸资讯平台"@;
            assert(d.len() == 11 && k.len() == 11);
            assert forall|i: int| 0 <= i < d.len() implies simple_char(#[trigger] d[i]) && ascii_lowercase(d)[i] == k[i] by {
                assert(i == 0 || i == 1 || i == 2 || i == 3 || i == 4 || i == 5 || i == 6 || i == 7 || i == 8 || i == 9 || i == 10);
            }
            assert(ascii_lowercase(d) =~= k);
            assert(category_for_key(k) == Some(NewsCategory::Asean));
        },
        NewsCategory::WeiboHot => {
            reveal_strlit("微博热搜");
            let d = "微博热搜"@;
            let k = "微博热搜"@;
            assert(d.len() == 4 && k.len() == 4);
            assert forall|i: int| 0 <= i < d.len() implies simple_char(#[trigger] d[i]) && ascii_lowercase(d)[i] == k[i] by {
                assert(i == 0 || i == 1 || i == 2 || i == 3);
            }
            assert(ascii_lowercase(d) =~= k);
            assert(category_for_key(k) == Some(NewsCategory::WeiboHot));
        },
        NewsCategory::BaiduHot => {
            reveal_strlit("百度热搜");
            let d = "百度热搜"@;
            let k = "百度热搜"@;
            assert(d.len() == 4 && k.len() == 4);
            assert forall|i: int| 0 <= i < d.len() implies simple_char(#[trigger] d[i]) && ascii_lowercase(d)[i] == k[i] by {
                assert(i == 0 || i == 1 || i == 2 || i == 3);
            }
            assert(ascii_lowercase(d) =~= k);
            assert(category_for_key(k) == Some(NewsCategory::BaiduHot));
        },
        NewsCategory::ZhihuHot => {
            reveal_strlit("知乎热榜");
            let d = "知乎热榜"@;
            let k = "知乎热榜"@;
            assert(d.len() == 4 && k.len() == 4);
            assert forall|i: int| 0 <= i < d.len() implies simple_char(#[trigger] d[i]) && ascii_lowercase(d)[i] == k[i] by {
                assert(i == 0 || i == 1 || i == 2 || i == 3);
            }
            assert(ascii_lowercase(d) =~= k);
            assert(category_for_key(k) == Some(NewsCategory::ZhihuHot));
        },
        NewsCategory::DouyinHot => {
            reveal_strlit("抖音热点");
            let d = "抖音热点"@;
            let k = "抖音热点"@;
            assert(d.len() == 4 && k.len() == 4);
            assert forall|i: int| 0 <= i < d.len() implies simple_char(#[trigger] d[i]) && ascii_lowercase(d)[i] == k[i] by {
                assert(i == 0 || i == 1 || i == 2 || i == 3);
            }
            assert(ascii_lowercase(d) =~= k);
            assert(category_for_key(k) == Some(NewsCategory::DouyinHot));
        },
        NewsCategory::BilibiliHot => {
            reveal_strlit("B站热搜");
            reveal_strlit("b站热搜");
            let d = "B站热搜"@;
            let k = "b站热搜"@;
            assert(d.len() == 4 && k.len() == 4);
            assert forall|i: int| 0 <= i < d.len() implies simple_char(#[trigger] d[i]) && ascii_lowercase(d)[i] == k[i] by {
                assert(i == 0 || i == 1 || i == 2 || i == 3);
            }
            assert(ascii_lowercase(d) =~= k);
            assert(category_for_key(k) == Some(NewsCategory::BilibiliHot));
        },
        NewsCategory::TiebaHot => {
            reveal_strlit("贴吧热议");
            let d = "贴吧热议"@;
            let k = "贴吧热议"@;
            assert(d.len() == 4 && k.len() == 4);
            assert forall|i: int| 0 <= i < d.len() implies simple_char(#[trigger] d[i]) && ascii_lowercase(d)[i] == k[i] by {
                assert(i == 0 || i == 1 || i == 2 || i == 3);
            }
            assert(ascii_lowercase(d) =~= k);
            assert(category_for_key(k) == Some(NewsCategory::TiebaHot));
        },
        NewsCategory::ToutiaoHot => {
            reveal_strlit("今日头条热点");
            let d = "今日头条热点"@;
            let k = "今日头条热点"@;
            assert(d.len() == 6 && k.len() == 6);
            assert forall|i: int| 0 <= i < d.len() implies simple_char(#[trigger] d[i]) && ascii_lowercase(d)[i] == k[i] by {
                assert(i == 0 || i == 1 || i == 2 || i == 3 || i == 4 || i == 5);
            }
            assert(ascii_lowercase(d) =~= k);
            assert(category_for_key(k) == Some(NewsCategory::ToutiaoHot));
        },
        NewsCategory::WallstreetcnHot => {
            reveal_strlit("华尔街见闻热门");
            let d = "华尔街见闻热门"@;
            let k = "华尔街见闻热门"@;
            assert(d.len() == 7 && k.len() == 7);
            assert forall|i: int| 0 <= i < d.len() implies simple_char(#[trigger] d[i]) && ascii_lowercase(d)[i] == k[i] by {
                assert(i == 0 || i == 1 || i == 2 || i == 3 || i == 4 || i == 5 || i == 6);
            }
            assert(ascii_lowercase(d) =~= k);
            assert(category_for_key(k) == Some(NewsCategory::WallstreetcnHot));
        },
        NewsCategory::ClsHot => {
            reveal_strlit("财联社热门");
            let d = "财联社热门"@;
            let k = "财联社热门"@;
            assert(d.len() == 5 && k.len() == 5);
            assert forall|i: int| 0 <= i < d.len() implies simple_char(#[trigger] d[i]) && ascii_lowercase(d)[i] == k[i] by {
                assert(i == 0 || i == 1 || i == 2 || i == 3 || i == 4);
            }
            assert(ascii_lowercase(d) =~= k);
            assert(category_for_key(k) == Some(NewsCategory::ClsHot));
        },
        NewsCategory::ThepaperHot => {
            reveal_strlit("澎湃热门");
            let d = "澎湃热门"@;
            let k = "澎湃热门"@;
            assert(d.len() == 4 && k.len() == 4);
            assert forall|i: int| 0 <= i < d.len() implies simple_char(#[trigger] d[i]) && ascii_lowercase(d)[i] == k[i] by {
                assert(i == 0 || i == 1 || i == 2 || i == 3);
            }
            assert(ascii_lowercase(d) =~= k);
            assert(category_for_key(k) == Some(NewsCategory::ThepaperHot));
        },
        NewsCategory::IfengHot => {
            reveal_strlit("凤凰网热门");
            let d = "凤凰网热门"@;
            let k = "凤凰网热门"@;
            assert(d.len() == 5 && k.len() == 5);
            assert forall|i: int| 0 <= i < d.len() implies simple_char(#[trigger] d[i]) && ascii_lowercase(d)[i] == k[i] by {
                assert(i == 0 || i == 1 || i == 2 || i == 3 || i == 4);
            }
            assert(ascii_lowercase(d) =~= k);
            assert(category_for_key(k) == Some(NewsCategory::IfengHot));
        },
    }
}

/// Display names are distinct: two categories with the same display name are
/// the same category.
pub proof fn law_display_names_distinct(a: NewsCategory, b: NewsCategory)
    ensures
        display_name_of(a) == display_name_of(b) ==> a == b,
{
    law_display_names_parse_back(a);
    law_display_names_parse_back(b);
}

/// A category's lowercase name, in any ASCII case, names that category.
pub proof fn law_names_parse_ignoring_ascii_case(c: NewsCategory, s: Seq<char>)
    requires
        all_simple(s),
        ascii_lowercase(s) == canonical_key(c) || (c != NewsCategory::HackerNews && ascii_lowercase(s)
            == ascii_lowercase(display_name_of(c))),
    ensures
        category_for_key(ascii_lowercase(s)) == Some(c),
{
    law_category_name_parses_back(c);
    law_display_names_parse_back(c);
}

} // verus!
