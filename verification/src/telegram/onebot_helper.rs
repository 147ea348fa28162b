//! Helpers for rendering OneBot content: sticker classification, the
//! QQ face-id and WeChat emoji substitution tables, and the share and
//! location card readers.

use vstd::prelude::*;

verus! {

use crate::onebot::protocol::segment::{Segment, SegView};
use crate::text::{spec_replace_all, replace_all, dec_digits, parse_u64, u64_to_dec, str_eq, push_char};
use vstd::string::StringExecFns;

/// A segment counts as a sticker when it is a market face, or an image
/// with an emoji id, or an image summarized as an animated face.
pub open spec fn spec_is_sticker(s: SegView) -> bool {
    match s {
        SegView::MarketFace { .. } => true,
        SegView::Image { emoji_id, summary, .. } => emoji_id is Some || summary == Some(
            "[动画表情]"@,
        ),
        _ => false,
    }
}

pub fn is_sticker(segment: &Segment) -> (r: bool)
    ensures
        r == spec_is_sticker(segment@),
{
    match segment {
        Segment::MarketFace(_) => true,
        Segment::Image(image) => {
            if image.emoji_id.is_some() {
                true
            } else {
                match &image.summary {
                    Some(summary) => str_eq(summary.as_str(), "[动画表情]"),
                    None => false,
                }
            }
        },
        _ => false,
    }
}

// ---------- the QQ face table ----------

pub open spec fn spec_qq_face_chunk_0(n: int) -> Option<Seq<char>> {
    if n == 0 {
        Some("惊讶"@)
    } else if n == 1 {
        Some("撇嘴"@)
    } else if n == 2 {
        Some("色"@)
    } else if n == 3 {
        Some("发呆"@)
    } else if n == 4 {
        Some("得意"@)
    } else if n == 5 {
        Some("流泪"@)
    } else if n == 6 {
        Some("害羞"@)
    } else if n == 7 {
        Some("闭嘴"@)
    } else if n == 8 {
        Some("睡"@)
    } else if n == 9 {
        Some("大哭"@)
    } else if n == 10 {
        Some("尴尬"@)
    } else if n == 11 {
        Some("发怒"@)
    } else if n == 12 {
        Some("调皮"@)
    } else if n == 13 {
        Some("呲牙"@)
    } else if n == 14 {
        Some("微笑"@)
    } else if n == 15 {
        Some("难过"@)
    } else if n == 16 {
        Some("酷"@)
    } else if n == 18 {
        Some("抓狂"@)
    } else if n == 19 {
        Some("吐"@)
    } else if n == 20 {
        Some("偷笑"@)
    } else if n == 21 {
        Some("可爱"@)
    } else if n == 22 {
        Some("白眼"@)
    } else if n == 23 {
        Some("傲慢"@)
    } else if n == 24 {
        Some("饥饿"@)
    } else if n == 25 {
        Some("困"@)
    } else if n == 26 {
        Some("惊恐"@)
    } else if n == 27 {
        Some("流汗"@)
    } else if n == 28 {
        Some("憨笑"@)
    } else if n == 29 {
        Some("悠闲"@)
    } else if n == 30 {
        Some("奋斗"@)
    } else if n == 31 {
        Some("咒骂"@)
    } else if n == 32 {
        Some("疑问"@)
    } else if n == 33 {
        Some("嘘"@)
    } else if n == 34 {
        Some("晕"@)
    } else if n == 35 {
        Some("折磨"@)
    } else if n == 36 {
        Some("衰"@)
    } else if n == 37 {
        Some("骷髅"@)
    } else if n == 38 {
        Some("敲打"@)
    } else if n == 39 {
        Some("再见"@)
    } else if n == 41 {
        Some("发抖"@)
    } else if n == 42 {
        Some("爱情"@)
    } else if n == 43 {
        Some("跳跳"@)
    } else if n == 46 {
        Some("猪头"@)
    } else if n == 49 {
        Some("拥抱"@)
    } else if n == 53 {
        Some("蛋糕"@)
    } else if n == 54 {
        Some("闪电"@)
    } else if n == 55 {
        Some("炸弹"@)
    } else if n == 56 {
        Some("刀"@)
    } else if n == 57 {
        Some("足球"@)
    } else if n == 59 {
        Some("便便"@)
    } else {
        None
    }
}

fn qq_face_chunk_0(n: u64) -> (r: Option<&'static str>)
    ensures
        match r {
            Some(s) => spec_qq_face_chunk_0(n as int) == Some(s@),
            None => spec_qq_face_chunk_0(n as int) is None,
        },
{
    if n == 0 {
        Some("惊讶")
    } else if n == 1 {
        Some("撇嘴")
    } else if n == 2 {
        Some("色")
    } else if n == 3 {
        Some("发呆")
    } else if n == 4 {
        Some("得意")
    } else if n == 5 {
        Some("流泪")
    } else if n == 6 {
        Some("害羞")
    } else if n == 7 {
        Some("闭嘴")
    } else if n == 8 {
        Some("睡")
    } else if n == 9 {
        Some("大哭")
    } else if n == 10 {
        Some("尴尬")
    } else if n == 11 {
        Some("发怒")
    } else if n == 12 {
        Some("调皮")
    } else if n == 13 {
        Some("呲牙")
    } else if n == 14 {
        Some("微笑")
    } else if n == 15 {
        Some("难过")
    } else if n == 16 {
        Some("酷")
    } else if n == 18 {
        Some("抓狂")
    } else if n == 19 {
        Some("吐")
    } else if n == 20 {
        Some("偷笑")
    } else if n == 21 {
        Some("可爱")
    } else if n == 22 {
        Some("白眼")
    } else if n == 23 {
        Some("傲慢")
    } else if n == 24 {
        Some("饥饿")
    } else if n == 25 {
        Some("困")
    } else if n == 26 {
        Some("惊恐")
    } else if n == 27 {
        Some("流汗")
    } else if n == 28 {
        Some("憨笑")
    } else if n == 29 {
        Some("悠闲")
    } else if n == 30 {
        Some("奋斗")
    } else if n == 31 {
        Some("咒骂")
    } else if n == 32 {
        Some("疑问")
    } else if n == 33 {
        Some("嘘")
    } else if n == 34 {
        Some("晕")
    } else if n == 35 {
        Some("折磨")
    } else if n == 36 {
        Some("衰")
    } else if n == 37 {
        Some("骷髅")
    } else if n == 38 {
        Some("敲打")
    } else if n == 39 {
        Some("再见")
    } else if n == 41 {
        Some("发抖")
    } else if n == 42 {
        Some("爱情")
    } else if n == 43 {
        Some("跳跳")
    } else if n == 46 {
        Some("猪头")
    } else if n == 49 {
        Some("拥抱")
    } else if n == 53 {
        Some("蛋糕")
    } else if n == 54 {
        Some("闪电")
    } else if n == 55 {
        Some("炸弹")
    } else if n == 56 {
        Some("刀")
    } else if n == 57 {
        Some("足球")
    } else if n == 59 {
        Some("便便")
    } else {
        None
    }
}

pub open spec fn spec_qq_face_chunk_1(n: int) -> Option<Seq<char>> {
    if n == 60 {
        Some("咖啡"@)
    } else if n == 61 {
        Some("饭"@)
    } else if n == 63 {
        Some("玫瑰"@)
    } else if n == 64 {
        Some("凋谢"@)
    } else if n == 66 {
        Some("爱心"@)
    } else if n == 67 {
        Some("心碎"@)
    } else if n == 69 {
        Some("礼物"@)
    } else if n == 74 {
        Some("太阳"@)
    } else if n == 75 {
        Some("月亮"@)
    } else if n == 76 {
        Some("赞"@)
    } else if n == 77 {
        Some("踩"@)
    } else if n == 78 {
        Some("握手"@)
    } else if n == 79 {
        Some("胜利"@)
    } else if n == 85 {
        Some("飞吻"@)
    } else if n == 86 {
        Some("怄火"@)
    } else if n == 89 {
        Some("西瓜"@)
    } else if n == 96 {
        Some("冷汗"@)
    } else if n == 97 {
        Some("擦汗"@)
    } else if n == 98 {
        Some("抠鼻"@)
    } else if n == 99 {
        Some("鼓掌"@)
    } else if n == 100 {
        Some("糗大了"@)
    } else if n == 101 {
        Some("坏笑"@)
    } else if n == 102 {
        Some("左哼哼"@)
    } else if n == 103 {
        Some("右哼哼"@)
    } else if n == 104 {
        Some("哈欠"@)
    } else if n == 105 {
        Some("鄙视"@)
    } else if n == 106 {
        Some("委屈"@)
    } else if n == 107 {
        Some("快哭了"@)
    } else if n == 108 {
        Some("阴险"@)
    } else if n == 109 {
        Some("左亲亲"@)
    } else if n == 110 {
        Some("吓"@)
    } else if n == 111 {
        Some("可怜"@)
    } else if n == 112 {
        Some("菜刀"@)
    } else if n == 113 {
        Some("啤酒"@)
    } else if n == 114 {
        Some("篮球"@)
    } else if n == 115 {
        Some("乒乓"@)
    } else if n == 116 {
        Some("示爱"@)
    } else if n == 117 {
        Some("瓢虫"@)
    } else if n == 118 {
        Some("抱拳"@)
    } else if n == 119 {
        Some("勾引"@)
    } else if n == 120 {
        Some("拳头"@)
    } else if n == 121 {
        Some("差劲"@)
    } else if n == 122 {
        Some("爱你"@)
    } else if n == 123 {
        Some("NO"@)
    } else if n == 124 {
        Some("OK"@)
    } else if n == 125 {
        Some("转圈"@)
    } else if n == 126 {
        Some("磕头"@)
    } else if n == 127 {
        Some("回头"@)
    } else if n == 128 {
        Some("跳绳"@)
    } else if n == 129 {
        Some("挥手"@)
    } else {
        None
    }
}

fn qq_face_chunk_1(n: u64) -> (r: Option<&'static str>)
    ensures
        match r {
            Some(s) => spec_qq_face_chunk_1(n as int) == Some(s@),
            None => spec_qq_face_chunk_1(n as int) is None,
        },
{
    if n == 60 {
        Some("咖啡")
    } else if n == 61 {
        Some("饭")
    } else if n == 63 {
        Some("玫瑰")
    } else if n == 64 {
        Some("凋谢")
    } else if n == 66 {
        Some("爱心")
    } else if n == 67 {
        Some("心碎")
    } else if n == 69 {
        Some("礼物")
    } else if n == 74 {
        Some("太阳")
    } else if n == 75 {
        Some("月亮")
    } else if n == 76 {
        Some("赞")
    } else if n == 77 {
        Some("踩")
    } else if n == 78 {
        Some("握手")
    } else if n == 79 {
        Some("胜利")
    } else if n == 85 {
        Some("飞吻")
    } else if n == 86 {
        Some("怄火")
    } else if n == 89 {
        Some("西瓜")
    } else if n == 96 {
        Some("冷汗")
    } else if n == 97 {
        Some("擦汗")
    } else if n == 98 {
        Some("抠鼻")
    } else if n == 99 {
        Some("鼓掌")
    } else if n == 100 {
        Some("糗大了")
    } else if n == 101 {
        Some("坏笑")
    } else if n == 102 {
        Some("左哼哼")
    } else if n == 103 {
        Some("右哼哼")
    } else if n == 104 {
        Some("哈欠")
    } else if n == 105 {
        Some("鄙视")
    } else if n == 106 {
        Some("委屈")
    } else if n == 107 {
        Some("快哭了")
    } else if n == 108 {
        Some("阴险")
    } else if n == 109 {
        Some("左亲亲")
    } else if n == 110 {
        Some("吓")
    } else if n == 111 {
        Some("可怜")
    } else if n == 112 {
        Some("菜刀")
    } else if n == 113 {
        Some("啤酒")
    } else if n == 114 {
        Some("篮球")
    } else if n == 115 {
        Some("乒乓")
    } else if n == 116 {
        Some("示爱")
    } else if n == 117 {
        Some("瓢虫")
    } else if n == 118 {
        Some("抱拳")
    } else if n == 119 {
        Some("勾引")
    } else if n == 120 {
        Some("拳头")
    } else if n == 121 {
        Some("差劲")
    } else if n == 122 {
        Some("爱你")
    } else if n == 123 {
        Some("NO")
    } else if n == 124 {
        Some("OK")
    } else if n == 125 {
        Some("转圈")
    } else if n == 126 {
        Some("磕头")
    } else if n == 127 {
        Some("回头")
    } else if n == 128 {
        Some("跳绳")
    } else if n == 129 {
        Some("挥手")
    } else {
        None
    }
}

pub open spec fn spec_qq_face_chunk_2(n: int) -> Option<Seq<char>> {
    if n == 130 {
        Some("激动"@)
    } else if n == 131 {
        Some("街舞"@)
    } else if n == 132 {
        Some("献吻"@)
    } else if n == 133 {
        Some("左太极"@)
    } else if n == 134 {
        Some("右太极"@)
    } else if n == 136 {
        Some("双喜"@)
    } else if n == 137 {
        Some("鞭炮"@)
    } else if n == 138 {
        Some("灯笼"@)
    } else if n == 140 {
        Some("K歌"@)
    } else if n == 144 {
        Some("喝彩"@)
    } else if n == 145 {
        Some("祈祷"@)
    } else if n == 146 {
        Some("爆筋"@)
    } else if n == 147 {
        Some("棒棒糖"@)
    } else if n == 148 {
        Some("喝奶"@)
    } else if n == 151 {
        Some("飞机"@)
    } else if n == 158 {
        Some("钞票"@)
    } else if n == 168 {
        Some("药"@)
    } else if n == 169 {
        Some("手枪"@)
    } else if n == 171 {
        Some("茶"@)
    } else if n == 172 {
        Some("眨眼睛"@)
    } else if n == 173 {
        Some("泪奔"@)
    } else if n == 174 {
        Some("无奈"@)
    } else if n == 175 {
        Some("卖萌"@)
    } else if n == 176 {
        Some("小纠结"@)
    } else if n == 177 {
        Some("喷血"@)
    } else if n == 178 {
        Some("斜眼笑"@)
    } else if n == 179 {
        Some("doge"@)
    } else if n == 180 {
        Some("惊喜"@)
    } else if n == 181 {
        Some("骚扰"@)
    } else if n == 182 {
        Some("笑哭"@)
    } else if n == 183 {
        Some("我最美"@)
    } else if n == 184 {
        Some("河蟹"@)
    } else if n == 185 {
        Some("羊驼"@)
    } else if n == 187 {
        Some("幽灵"@)
    } else if n == 188 {
        Some("蛋"@)
    } else if n == 190 {
        Some("菊花"@)
    } else if n == 192 {
        Some("红包"@)
    } else if n == 193 {
        Some("大笑"@)
    } else if n == 194 {
        Some("不开心"@)
    } else if n == 197 {
        Some("冷漠"@)
    } else if n == 198 {
        Some("呃"@)
    } else if n == 199 {
        Some("好棒"@)
    } else if n == 200 {
        Some("拜托"@)
    } else if n == 201 {
        Some("点赞"@)
    } else if n == 202 {
        Some("无聊"@)
    } else if n == 203 {
        Some("托脸"@)
    } else if n == 204 {
        Some("吃"@)
    } else if n == 205 {
        Some("送花"@)
    } else if n == 206 {
        Some("害怕"@)
    } else if n == 207 {
        Some("花痴"@)
    } else {
        None
    }
}

fn qq_face_chunk_2(n: u64) -> (r: Option<&'static str>)
    ensures
        match r {
            Some(s) => spec_qq_face_chunk_2(n as int) == Some(s@),
            None => spec_qq_face_chunk_2(n as int) is None,
        },
{
    if n == 130 {
        Some("激动")
    } else if n == 131 {
        Some("街舞")
    } else if n == 132 {
        Some("献吻")
    } else if n == 133 {
        Some("左太极")
    } else if n == 134 {
        Some("右太极")
    } else if n == 136 {
        Some("双喜")
    } else if n == 137 {
        Some("鞭炮")
    } else if n == 138 {
        Some("灯笼")
    } else if n == 140 {
        Some("K歌")
    } else if n == 144 {
        Some("喝彩")
    } else if n == 145 {
        Some("祈祷")
    } else if n == 146 {
        Some("爆筋")
    } else if n == 147 {
        Some("棒棒糖")
    } else if n == 148 {
        Some("喝奶")
    } else if n == 151 {
        Some("飞机")
    } else if n == 158 {
        Some("钞票")
    } else if n == 168 {
        Some("药")
    } else if n == 169 {
        Some("手枪")
    } else if n == 171 {
        Some("茶")
    } else if n == 172 {
        Some("眨眼睛")
    } else if n == 173 {
        Some("泪奔")
    } else if n == 174 {
        Some("无奈")
    } else if n == 175 {
        Some("卖萌")
    } else if n == 176 {
        Some("小纠结")
    } else if n == 177 {
        Some("喷血")
    } else if n == 178 {
        Some("斜眼笑")
    } else if n == 179 {
        Some("doge")
    } else if n == 180 {
        Some("惊喜")
    } else if n == 181 {
        Some("骚扰")
    } else if n == 182 {
        Some("笑哭")
    } else if n == 183 {
        Some("我最美")
    } else if n == 184 {
        Some("河蟹")
    } else if n == 185 {
        Some("羊驼")
    } else if n == 187 {
        Some("幽灵")
    } else if n == 188 {
        Some("蛋")
    } else if n == 190 {
        Some("菊花")
    } else if n == 192 {
        Some("红包")
    } else if n == 193 {
        Some("大笑")
    } else if n == 194 {
        Some("不开心")
    } else if n == 197 {
        Some("冷漠")
    } else if n == 198 {
        Some("呃")
    } else if n == 199 {
        Some("好棒")
    } else if n == 200 {
        Some("拜托")
    } else if n == 201 {
        Some("点赞")
    } else if n == 202 {
        Some("无聊")
    } else if n == 203 {
        Some("托脸")
    } else if n == 204 {
        Some("吃")
    } else if n == 205 {
        Some("送花")
    } else if n == 206 {
        Some("害怕")
    } else if n == 207 {
        Some("花痴")
    } else {
        None
    }
}

pub open spec fn spec_qq_face_chunk_3(n: int) -> Option<Seq<char>> {
    if n == 208 {
        Some("小样儿"@)
    } else if n == 210 {
        Some("飙泪"@)
    } else if n == 211 {
        Some("我不看"@)
    } else if n == 212 {
        Some("托腮"@)
    } else if n == 214 {
        Some("啵啵"@)
    } else if n == 215 {
        Some("糊脸"@)
    } else if n == 216 {
        Some("拍头"@)
    } else if n == 217 {
        Some("扯一扯"@)
    } else if n == 218 {
        Some("舔一舔"@)
    } else if n == 219 {
        Some("蹭一蹭"@)
    } else if n == 220 {
        Some("拽炸天"@)
    } else if n == 221 {
        Some("顶呱呱"@)
    } else if n == 222 {
        Some("抱抱"@)
    } else if n == 223 {
        Some("暴击"@)
    } else if n == 224 {
        Some("开枪"@)
    } else if n == 225 {
        Some("撩一撩"@)
    } else if n == 226 {
        Some("拍桌"@)
    } else if n == 227 {
        Some("拍手"@)
    } else if n == 228 {
        Some("恭喜"@)
    } else if n == 229 {
        Some("干杯"@)
    } else if n == 230 {
        Some("嘲讽"@)
    } else if n == 231 {
        Some("哼"@)
    } else if n == 232 {
        Some("佛系"@)
    } else if n == 233 {
        Some("掐一掐"@)
    } else if n == 234 {
        Some("惊呆"@)
    } else if n == 235 {
        Some("颤抖"@)
    } else if n == 236 {
        Some("啃头"@)
    } else if n == 237 {
        Some("偷看"@)
    } else if n == 238 {
        Some("扇脸"@)
    } else if n == 239 {
        Some("原谅"@)
    } else if n == 240 {
        Some("喷脸"@)
    } else if n == 241 {
        Some("生日快乐"@)
    } else if n == 242 {
        Some("头撞击"@)
    } else if n == 243 {
        Some("甩头"@)
    } else if n == 244 {
        Some("扔狗"@)
    } else if n == 245 {
        Some("加油必胜"@)
    } else if n == 246 {
        Some("加油抱抱"@)
    } else if n == 247 {
        Some("口罩护体"@)
    } else if n == 260 {
        Some("搬砖中"@)
    } else if n == 261 {
        Some("忙到飞起"@)
    } else if n == 262 {
        Some("脑阔疼"@)
    } else if n == 263 {
        Some("沧桑"@)
    } else if n == 264 {
        Some("捂脸"@)
    } else if n == 265 {
        Some("辣眼睛"@)
    } else if n == 266 {
        Some("哦哟"@)
    } else if n == 267 {
        Some("头秃"@)
    } else if n == 268 {
        Some("问号脸"@)
    } else if n == 269 {
        Some("暗中观察"@)
    } else if n == 270 {
        Some("emm"@)
    } else if n == 271 {
        Some("吃瓜"@)
    } else {
        None
    }
}

fn qq_face_chunk_3(n: u64) -> (r: Option<&'static str>)
    ensures
        match r {
            Some(s) => spec_qq_face_chunk_3(n as int) == Some(s@),
            None => spec_qq_face_chunk_3(n as int) is None,
        },
{
    if n == 208 {
        Some("小样儿")
    } else if n == 210 {
        Some("飙泪")
    } else if n == 211 {
        Some("我不看")
    } else if n == 212 {
        Some("托腮")
    } else if n == 214 {
        Some("啵啵")
    } else if n == 215 {
        Some("糊脸")
    } else if n == 216 {
        Some("拍头")
    } else if n == 217 {
        Some("扯一扯")
    } else if n == 218 {
        Some("舔一舔")
    } else if n == 219 {
        Some("蹭一蹭")
    } else if n == 220 {
        Some("拽炸天")
    } else if n == 221 {
        Some("顶呱呱")
    } else if n == 222 {
        Some("抱抱")
    } else if n == 223 {
        Some("暴击")
    } else if n == 224 {
        Some("开枪")
    } else if n == 225 {
        Some("撩一撩")
    } else if n == 226 {
        Some("拍桌")
    } else if n == 227 {
        Some("拍手")
    } else if n == 228 {
        Some("恭喜")
    } else if n == 229 {
        Some("干杯")
    } else if n == 230 {
        Some("嘲讽")
    } else if n == 231 {
        Some("哼")
    } else if n == 232 {
        Some("佛系")
    } else if n == 233 {
        Some("掐一掐")
    } else if n == 234 {
        Some("惊呆")
    } else if n == 235 {
        Some("颤抖")
    } else if n == 236 {
        Some("啃头")
    } else if n == 237 {
        Some("偷看")
    } else if n == 238 {
        Some("扇脸")
    } else if n == 239 {
        Some("原谅")
    } else if n == 240 {
        Some("喷脸")
    } else if n == 241 {
        Some("生日快乐")
    } else if n == 242 {
        Some("头撞击")
    } else if n == 243 {
        Some("甩头")
    } else if n == 244 {
        Some("扔狗")
    } else if n == 245 {
        Some("加油必胜")
    } else if n == 246 {
        Some("加油抱抱")
    } else if n == 247 {
        Some("口罩护体")
    } else if n == 260 {
        Some("搬砖中")
    } else if n == 261 {
        Some("忙到飞起")
    } else if n == 262 {
        Some("脑阔疼")
    } else if n == 263 {
        Some("沧桑")
    } else if n == 264 {
        Some("捂脸")
    } else if n == 265 {
        Some("辣眼睛")
    } else if n == 266 {
        Some("哦哟")
    } else if n == 267 {
        Some("头秃")
    } else if n == 268 {
        Some("问号脸")
    } else if n == 269 {
        Some("暗中观察")
    } else if n == 270 {
        Some("emm")
    } else if n == 271 {
        Some("吃瓜")
    } else {
        None
    }
}

pub open spec fn spec_qq_face_chunk_4(n: int) -> Option<Seq<char>> {
    if n == 272 {
        Some("呵呵哒"@)
    } else if n == 273 {
        Some("我酸了"@)
    } else if n == 274 {
        Some("太南了"@)
    } else if n == 276 {
        Some("辣椒酱"@)
    } else if n == 277 {
        Some("汪汪"@)
    } else if n == 278 {
        Some("汗"@)
    } else if n == 279 {
        Some("打脸"@)
    } else if n == 280 {
        Some("击掌"@)
    } else if n == 281 {
        Some("无眼笑"@)
    } else if n == 282 {
        Some("敬礼"@)
    } else if n == 283 {
        Some("狂笑"@)
    } else if n == 284 {
        Some("面无表情"@)
    } else if n == 285 {
        Some("摸鱼"@)
    } else if n == 286 {
        Some("魔鬼笑"@)
    } else if n == 287 {
        Some("哦"@)
    } else if n == 288 {
        Some("请"@)
    } else if n == 289 {
        Some("睁眼"@)
    } else if n == 290 {
        Some("敲开心"@)
    } else if n == 291 {
        Some("震惊"@)
    } else if n == 292 {
        Some("让我康康"@)
    } else if n == 293 {
        Some("摸锦鲤"@)
    } else if n == 294 {
        Some("期待"@)
    } else if n == 295 {
        Some("拿到红包"@)
    } else if n == 296 {
        Some("真好"@)
    } else if n == 297 {
        Some("拜谢"@)
    } else if n == 298 {
        Some("元宝"@)
    } else if n == 299 {
        Some("牛啊"@)
    } else if n == 300 {
        Some("胖三斤"@)
    } else if n == 301 {
        Some("好闪"@)
    } else if n == 302 {
        Some("左拜年"@)
    } else if n == 303 {
        Some("右拜年"@)
    } else if n == 304 {
        Some("红包包"@)
    } else if n == 305 {
        Some("右亲亲"@)
    } else if n == 306 {
        Some("牛气冲天"@)
    } else if n == 307 {
        Some("喵喵"@)
    } else if n == 308 {
        Some("求红包"@)
    } else if n == 309 {
        Some("谢红包"@)
    } else if n == 310 {
        Some("新年烟花"@)
    } else if n == 311 {
        Some("打call"@)
    } else if n == 312 {
        Some("变形"@)
    } else if n == 313 {
        Some("嗑到了"@)
    } else if n == 314 {
        Some("仔细分析"@)
    } else if n == 315 {
        Some("加油"@)
    } else if n == 316 {
        Some("我没事"@)
    } else if n == 317 {
        Some("菜汪"@)
    } else if n == 318 {
        Some("崇拜"@)
    } else if n == 319 {
        Some("比心"@)
    } else if n == 320 {
        Some("庆祝"@)
    } else if n == 321 {
        Some("老色痞"@)
    } else if n == 322 {
        Some("拒绝"@)
    } else {
        None
    }
}

fn qq_face_chunk_4(n: u64) -> (r: Option<&'static str>)
    ensures
        match r {
            Some(s) => spec_qq_face_chunk_4(n as int) == Some(s@),
            None => spec_qq_face_chunk_4(n as int) is None,
        },
{
    if n == 272 {
        Some("呵呵哒")
    } else if n == 273 {
        Some("我酸了")
    } else if n == 274 {
        Some("太南了")
    } else if n == 276 {
        Some("辣椒酱")
    } else if n == 277 {
        Some("汪汪")
    } else if n == 278 {
        Some("汗")
    } else if n == 279 {
        Some("打脸")
    } else if n == 280 {
        Some("击掌")
    } else if n == 281 {
        Some("无眼笑")
    } else if n == 282 {
        Some("敬礼")
    } else if n == 283 {
        Some("狂笑")
    } else if n == 284 {
        Some("面无表情")
    } else if n == 285 {
        Some("摸鱼")
    } else if n == 286 {
        Some("魔鬼笑")
    } else if n == 287 {
        Some("哦")
    } else if n == 288 {
        Some("请")
    } else if n == 289 {
        Some("睁眼")
    } else if n == 290 {
        Some("敲开心")
    } else if n == 291 {
        Some("震惊")
    } else if n == 292 {
        Some("让我康康")
    } else if n == 293 {
        Some("摸锦鲤")
    } else if n == 294 {
        Some("期待")
    } else if n == 295 {
        Some("拿到红包")
    } else if n == 296 {
        Some("真好")
    } else if n == 297 {
        Some("拜谢")
    } else if n == 298 {
        Some("元宝")
    } else if n == 299 {
        Some("牛啊")
    } else if n == 300 {
        Some("胖三斤")
    } else if n == 301 {
        Some("好闪")
    } else if n == 302 {
        Some("左拜年")
    } else if n == 303 {
        Some("右拜年")
    } else if n == 304 {
        Some("红包包")
    } else if n == 305 {
        Some("右亲亲")
    } else if n == 306 {
        Some("牛气冲天")
    } else if n == 307 {
        Some("喵喵")
    } else if n == 308 {
        Some("求红包")
    } else if n == 309 {
        Some("谢红包")
    } else if n == 310 {
        Some("新年烟花")
    } else if n == 311 {
        Some("打call")
    } else if n == 312 {
        Some("变形")
    } else if n == 313 {
        Some("嗑到了")
    } else if n == 314 {
        Some("仔细分析")
    } else if n == 315 {
        Some("加油")
    } else if n == 316 {
        Some("我没事")
    } else if n == 317 {
        Some("菜汪")
    } else if n == 318 {
        Some("崇拜")
    } else if n == 319 {
        Some("比心")
    } else if n == 320 {
        Some("庆祝")
    } else if n == 321 {
        Some("老色痞")
    } else if n == 322 {
        Some("拒绝")
    } else {
        None
    }
}

pub open spec fn spec_qq_face_chunk_5(n: int) -> Option<Seq<char>> {
    if n == 323 {
        Some("嫌弃"@)
    } else if n == 324 {
        Some("吃糖"@)
    } else if n == 325 {
        Some("惊吓"@)
    } else if n == 326 {
        Some("生气"@)
    } else if n == 327 {
        Some("加一"@)
    } else if n == 328 {
        Some("错号"@)
    } else if n == 329 {
        Some("对号"@)
    } else if n == 330 {
        Some("完成"@)
    } else if n == 331 {
        Some("明白"@)
    } else if n == 332 {
        Some("举牌牌"@)
    } else if n == 333 {
        Some("烟花"@)
    } else if n == 334 {
        Some("虎虎生威"@)
    } else if n == 336 {
        Some("豹富"@)
    } else if n == 337 {
        Some("花朵脸"@)
    } else if n == 338 {
        Some("我想开了"@)
    } else if n == 339 {
        Some("舔屏"@)
    } else if n == 340 {
        Some("热化了"@)
    } else if n == 341 {
        Some("打招呼"@)
    } else if n == 342 {
        Some("酸Q"@)
    } else if n == 343 {
        Some("我方了"@)
    } else if n == 344 {
        Some("大怨种"@)
    } else if n == 345 {
        Some("红包多多"@)
    } else if n == 346 {
        Some("你真棒棒"@)
    } else if n == 347 {
        Some("大展宏兔"@)
    } else if n == 348 {
        Some("福萝卜"@)
    } else {
        None
    }
}

fn qq_face_chunk_5(n: u64) -> (r: Option<&'static str>)
    ensures
        match r {
            Some(s) => spec_qq_face_chunk_5(n as int) == Some(s@),
            None => spec_qq_face_chunk_5(n as int) is None,
        },
{
    if n == 323 {
        Some("嫌弃")
    } else if n == 324 {
        Some("吃糖")
    } else if n == 325 {
        Some("惊吓")
    } else if n == 326 {
        Some("生气")
    } else if n == 327 {
        Some("加一")
    } else if n == 328 {
        Some("错号")
    } else if n == 329 {
        Some("对号")
    } else if n == 330 {
        Some("完成")
    } else if n == 331 {
        Some("明白")
    } else if n == 332 {
        Some("举牌牌")
    } else if n == 333 {
        Some("烟花")
    } else if n == 334 {
        Some("虎虎生威")
    } else if n == 336 {
        Some("豹富")
    } else if n == 337 {
        Some("花朵脸")
    } else if n == 338 {
        Some("我想开了")
    } else if n == 339 {
        Some("舔屏")
    } else if n == 340 {
        Some("热化了")
    } else if n == 341 {
        Some("打招呼")
    } else if n == 342 {
        Some("酸Q")
    } else if n == 343 {
        Some("我方了")
    } else if n == 344 {
        Some("大怨种")
    } else if n == 345 {
        Some("红包多多")
    } else if n == 346 {
        Some("你真棒棒")
    } else if n == 347 {
        Some("大展宏兔")
    } else if n == 348 {
        Some("福萝卜")
    } else {
        None
    }
}

/// The localized name of a QQ face id, when the fixed table knows it.
pub open spec fn spec_qq_face_name(n: int) -> Option<Seq<char>> {
    if n <= 59 {
        spec_qq_face_chunk_0(n)
    } else if n <= 129 {
        spec_qq_face_chunk_1(n)
    } else if n <= 207 {
        spec_qq_face_chunk_2(n)
    } else if n <= 271 {
        spec_qq_face_chunk_3(n)
    } else if n <= 322 {
        spec_qq_face_chunk_4(n)
    } else if n <= 348 {
        spec_qq_face_chunk_5(n)
    } else {
        None
    }
}

fn qq_face_name(n: u64) -> (r: Option<&'static str>)
    ensures
        match r {
            Some(s) => spec_qq_face_name(n as int) == Some(s@),
            None => spec_qq_face_name(n as int) is None,
        },
{
    if n <= 59 {
        qq_face_chunk_0(n)
    } else if n <= 129 {
        qq_face_chunk_1(n)
    } else if n <= 207 {
        qq_face_chunk_2(n)
    } else if n <= 271 {
        qq_face_chunk_3(n)
    } else if n <= 322 {
        qq_face_chunk_4(n)
    } else if n <= 348 {
        qq_face_chunk_5(n)
    } else {
        None
    }
}

/// What a face id renders to: the slash-prefixed localized name for a
/// canonical decimal id the table knows, the `/[Face<id>]` fallback for
/// everything else.
pub open spec fn spec_replace_qq_face(id: Seq<char>) -> Seq<char> {
    match crate::text::spec_parse_u64(id) {
        Some(v) => {
            if id == dec_digits(v as nat) {
                match spec_qq_face_name(v as int) {
                    Some(name) => "/"@ + name,
                    None => "/[Face"@ + id + "]"@,
                }
            } else {
                "/[Face"@ + id + "]"@
            }
        },
        None => "/[Face"@ + id + "]"@,
    }
}

fn qq_face_fallback(id: &str) -> (r: String)
    ensures
        r@ == "/[Face"@ + id@ + "]"@,
{
    let mut r = "/[Face".to_owned();
    r.append(id);
    r.append("]");
    proof {
        assert(r@ =~= "/[Face"@ + id@ + "]"@);
    }
    r
}

pub fn replace_qq_face(id: &str) -> (r: String)
    ensures
        r@ == spec_replace_qq_face(id@),
{
    match parse_u64(id) {
        Some(v) => {
            let canonical = u64_to_dec(v);
            if str_eq(canonical.as_str(), id) {
                match qq_face_name(v) {
                    Some(name) => {
                        let mut r = "/".to_owned();
                        r.append(name);
                        proof {
                            assert(r@ =~= "/"@ + name@);
                        }
                        r
                    },
                    None => qq_face_fallback(id),
                }
            } else {
                qq_face_fallback(id)
            }
        },
        None => qq_face_fallback(id),
    }
}

// ---------- the WeChat emoji table ----------

pub open spec fn spec_wechat_chunk_0(s: Seq<char>) -> Seq<char> {
    spec_replace_all(spec_replace_all(spec_replace_all(spec_replace_all(spec_replace_all(spec_replace_all(spec_replace_all(spec_replace_all(spec_replace_all(spec_replace_all(spec_replace_all(spec_replace_all(spec_replace_all(spec_replace_all(spec_replace_all(spec_replace_all(spec_replace_all(spec_replace_all(spec_replace_all(spec_replace_all(spec_replace_all(spec_replace_all(spec_replace_all(spec_replace_all(s, "[微笑]"@, "😃"@), "[Smile]"@, "😃"@), "[色]"@, "😍"@), "[Drool]"@, "😍"@), "[发呆]"@, "😳"@), "[Scowl]"@, "😳"@), "[得意]"@, "😎"@), "[Chill]"@, "😎"@), "[流泪]"@, "😭"@), "[Sob]"@, "😭"@), "[害羞]"@, "☺️"@), "[Shy]"@, "☺️"@), "[闭嘴]"@, "🤐"@), "[Shutup]"@, "🤐"@), "[睡]"@, "😴"@), "[Sleep]"@, "😴"@), "[大哭]"@, "😣"@), "[Cry]"@, "😣"@), "[尴尬]"@, "😰"@), "[Awkward]"@, "😰"@), "[发怒]"@, "😡"@), "[Pout]"@, "😡"@), "[调皮]"@, "😜"@), "[Wink]"@, "😜"@)
}

fn wechat_chunk_0(s: &str) -> (r: String)
    ensures
        r@ == spec_wechat_chunk_0(s@),
{
    let r = replace_all(s, "[微笑]", "😃");
    let r = replace_all(r.as_str(), "[Smile]", "😃");
    let r = replace_all(r.as_str(), "[色]", "😍");
    let r = replace_all(r.as_str(), "[Drool]", "😍");
    let r = replace_all(r.as_str(), "[发呆]", "😳");
    let r = replace_all(r.as_str(), "[Scowl]", "😳");
    let r = replace_all(r.as_str(), "[得意]", "😎");
    let r = replace_all(r.as_str(), "[Chill]", "😎");
    let r = replace_all(r.as_str(), "[流泪]", "😭");
    let r = replace_all(r.as_str(), "[Sob]", "😭");
    let r = replace_all(r.as_str(), "[害羞]", "☺️");
    let r = replace_all(r.as_str(), "[Shy]", "☺️");
    let r = replace_all(r.as_str(), "[闭嘴]", "🤐");
    let r = replace_all(r.as_str(), "[Shutup]", "🤐");
    let r = replace_all(r.as_str(), "[睡]", "😴");
    let r = replace_all(r.as_str(), "[Sleep]", "😴");
    let r = replace_all(r.as_str(), "[大哭]", "😣");
    let r = replace_all(r.as_str(), "[Cry]", "😣");
    let r = replace_all(r.as_str(), "[尴尬]", "😰");
    let r = replace_all(r.as_str(), "[Awkward]", "😰");
    let r = replace_all(r.as_str(), "[发怒]", "😡");
    let r = replace_all(r.as_str(), "[Pout]", "😡");
    let r = replace_all(r.as_str(), "[调皮]", "😜");
    let r = replace_all(r.as_str(), "[Wink]", "😜");
    r
}

pub open spec fn spec_wechat_chunk_1(s: Seq<char>) -> Seq<char> {
    spec_replace_all(spec_replace_all(spec_replace_all(spec_replace_all(spec_replace_all(spec_replace_all(spec_replace_all(spec_replace_all(spec_replace_all(spec_replace_all(spec_replace_all(spec_replace_all(spec_replace_all(spec_replace_all(spec_replace_all(spec_replace_all(spec_replace_all(spec_replace_all(spec_replace_all(spec_replace_all(spec_replace_all(spec_replace_all(spec_replace_all(spec_replace_all(s, "[呲牙]"@, "😁"@), "[Grin]"@, "😁"@), "[惊讶]"@, "😱"@), "[Surprised]"@, "😱"@), "[难过]"@, "🙁"@), "[Frown]"@, "🙁"@), "[囧]"@, "☺️"@), "[Tension]"@, "☺️"@), "[抓狂]"@, "😫"@), "[Scream]"@, "😫"@), "[吐]"@, "🤢"@), "[Puke]"@, "🤢"@), "[偷笑]"@, "🙈"@), "[Chuckle]"@, "🙈"@), "[愉快]"@, "☺️"@), "[Joyful]"@, "☺️"@), "[白眼]"@, "🙄"@), "[Slight]"@, "🙄"@), "[傲慢]"@, "😕"@), "[Smug]"@, "😕"@), "[困]"@, "😪"@), "[Drowsy]"@, "😪"@), "[惊恐]"@, "😱"@), "[Panic]"@, "😱"@)
}

fn wechat_chunk_1(s: &str) -> (r: String)
    ensures
        r@ == spec_wechat_chunk_1(s@),
{
    let r = replace_all(s, "[呲牙]", "😁");
    let r = replace_all(r.as_str(), "[Grin]", "😁");
    let r = replace_all(r.as_str(), "[惊讶]", "😱");
    let r = replace_all(r.as_str(), "[Surprised]", "😱");
    let r = replace_all(r.as_str(), "[难过]", "🙁");
    let r = replace_all(r.as_str(), "[Frown]", "🙁");
    let r = replace_all(r.as_str(), "[囧]", "☺️");
    let r = replace_all(r.as_str(), "[Tension]", "☺️");
    let r = replace_all(r.as_str(), "[抓狂]", "😫");
    let r = replace_all(r.as_str(), "[Scream]", "😫");
    let r = replace_all(r.as_str(), "[吐]", "🤢");
    let r = replace_all(r.as_str(), "[Puke]", "🤢");
    let r = replace_all(r.as_str(), "[偷笑]", "🙈");
    let r = replace_all(r.as_str(), "[Chuckle]", "🙈");
    let r = replace_all(r.as_str(), "[愉快]", "☺️");
    let r = replace_all(r.as_str(), "[Joyful]", "☺️");
    let r = replace_all(r.as_str(), "[白眼]", "🙄");
    let r = replace_all(r.as_str(), "[Slight]", "🙄");
    let r = replace_all(r.as_str(), "[傲慢]", "😕");
    let r = replace_all(r.as_str(), "[Smug]", "😕");
    let r = replace_all(r.as_str(), "[困]", "😪");
    let r = replace_all(r.as_str(), "[Drowsy]", "😪");
    let r = replace_all(r.as_str(), "[惊恐]", "😱");
    let r = replace_all(r.as_str(), "[Panic]", "😱");
    r
}

pub open spec fn spec_wechat_chunk_2(s: Seq<char>) -> Seq<char> {
    spec_replace_all(spec_replace_all(spec_replace_all(spec_replace_all(spec_replace_all(spec_replace_all(spec_replace_all(spec_replace_all(spec_replace_all(spec_replace_all(spec_replace_all(spec_replace_all(spec_replace_all(spec_replace_all(spec_replace_all(spec_replace_all(spec_replace_all(spec_replace_all(spec_replace_all(spec_replace_all(spec_replace_all(spec_replace_all(spec_replace_all(spec_replace_all(s, "[流汗]"@, "😓"@), "[Sweat]"@, "😓"@), "[憨笑]"@, "😄"@), "[Laugh]"@, "😄"@), "[悠闲]"@, "😏"@), "[Loafer]"@, "😏"@), "[奋斗]"@, "💪"@), "[Strive]"@, "💪"@), "[咒骂]"@, "😤"@), "[Scold]"@, "😤"@), "[疑问]"@, "❓"@), "[Doubt]"@, "❓"@), "[嘘]"@, "🤐"@), "[Shhh]"@, "🤐"@), "[晕]"@, "😲"@), "[Dizzy]"@, "😲"@), "[衰]"@, "😳"@), "[BadLuck]"@, "😳"@), "[骷髅]"@, "💀"@), "[Skull]"@, "💀"@), "[敲打]"@, "👊"@), "[Hammer]"@, "👊"@), "[再见]"@, "🙋♂"@), "[Bye]"@, "🙋♂"@)
}

fn wechat_chunk_2(s: &str) -> (r: String)
    ensures
        r@ == spec_wechat_chunk_2(s@),
{
    let r = replace_all(s, "[流汗]", "😓");
    let r = replace_all(r.as_str(), "[Sweat]", "😓");
    let r = replace_all(r.as_str(), "[憨笑]", "😄");
    let r = replace_all(r.as_str(), "[Laugh]", "😄");
    let r = replace_all(r.as_str(), "[悠闲]", "😏");
    let r = replace_all(r.as_str(), "[Loafer]", "😏");
    let r = replace_all(r.as_str(), "[奋斗]", "💪");
    let r = replace_all(r.as_str(), "[Strive]", "💪");
    let r = replace_all(r.as_str(), "[咒骂]", "😤");
    let r = replace_all(r.as_str(), "[Scold]", "😤");
    let r = replace_all(r.as_str(), "[疑问]", "❓");
    let r = replace_all(r.as_str(), "[Doubt]", "❓");
    let r = replace_all(r.as_str(), "[嘘]", "🤐");
    let r = replace_all(r.as_str(), "[Shhh]", "🤐");
    let r = replace_all(r.as_str(), "[晕]", "😲");
    let r = replace_all(r.as_str(), "[Dizzy]", "😲");
    let r = replace_all(r.as_str(), "[衰]", "😳");
    let r = replace_all(r.as_str(), "[BadLuck]", "😳");
    let r = replace_all(r.as_str(), "[骷髅]", "💀");
    let r = replace_all(r.as_str(), "[Skull]", "💀");
    let r = replace_all(r.as_str(), "[敲打]", "👊");
    let r = replace_all(r.as_str(), "[Hammer]", "👊");
    let r = replace_all(r.as_str(), "[再见]", "🙋♂");
    let r = replace_all(r.as_str(), "[Bye]", "🙋♂");
    r
}

pub open spec fn spec_wechat_chunk_3(s: Seq<char>) -> Seq<char> {
    spec_replace_all(spec_replace_all(spec_replace_all(spec_replace_all(spec_replace_all(spec_replace_all(spec_replace_all(spec_replace_all(spec_replace_all(spec_replace_all(spec_replace_all(spec_replace_all(spec_replace_all(spec_replace_all(spec_replace_all(spec_replace_all(spec_replace_all(spec_replace_all(spec_replace_all(spec_replace_all(spec_replace_all(spec_replace_all(spec_replace_all(spec_replace_all(s, "[擦汗]"@, "😥"@), "[Relief]"@, "😥"@), "[抠鼻]"@, "🤷♂"@), "[DigNose]"@, "🤷♂"@), "[鼓掌]"@, "👏"@), "[Clap]"@, "👏"@), "[坏笑]"@, "👻"@), "[Trick]"@, "👻"@), "[左哼哼]"@, "😾"@), "[Bah！L]"@, "😾"@), "[右哼哼]"@, "😾"@), "[Bah！R]"@, "😾"@), "[哈欠]"@, "😪"@), "[Yawn]"@, "😪"@), "[鄙视]"@, "😒"@), "[Lookdown]"@, "😒"@), "[委屈]"@, "😣"@), "[Wronged]"@, "😣"@), "[快哭了]"@, "😔"@), "[Puling]"@, "😔"@), "[阴险]"@, "😈"@), "[Sly]"@, "😈"@), "[亲亲]"@, "😘"@), "[Kiss]"@, "😘"@)
}

fn wechat_chunk_3(s: &str) -> (r: String)
    ensures
        r@ == spec_wechat_chunk_3(s@),
{
    let r = replace_all(s, "[擦汗]", "😥");
    let r = replace_all(r.as_str(), "[Relief]", "😥");
    let r = replace_all(r.as_str(), "[抠鼻]", "🤷♂");
    let r = replace_all(r.as_str(), "[DigNose]", "🤷♂");
    let r = replace_all(r.as_str(), "[鼓掌]", "👏");
    let r = replace_all(r.as_str(), "[Clap]", "👏");
    let r = replace_all(r.as_str(), "[坏笑]", "👻");
    let r = replace_all(r.as_str(), "[Trick]", "👻");
    let r = replace_all(r.as_str(), "[左哼哼]", "😾");
    let r = replace_all(r.as_str(), "[Bah！L]", "😾");
    let r = replace_all(r.as_str(), "[右哼哼]", "😾");
    let r = replace_all(r.as_str(), "[Bah！R]", "😾");
    let r = replace_all(r.as_str(), "[哈欠]", "😪");
    let r = replace_all(r.as_str(), "[Yawn]", "😪");
    let r = replace_all(r.as_str(), "[鄙视]", "😒");
    let r = replace_all(r.as_str(), "[Lookdown]", "😒");
    let r = replace_all(r.as_str(), "[委屈]", "😣");
    let r = replace_all(r.as_str(), "[Wronged]", "😣");
    let r = replace_all(r.as_str(), "[快哭了]", "😔");
    let r = replace_all(r.as_str(), "[Puling]", "😔");
    let r = replace_all(r.as_str(), "[阴险]", "😈");
    let r = replace_all(r.as_str(), "[Sly]", "😈");
    let r = replace_all(r.as_str(), "[亲亲]", "😘");
    let r = replace_all(r.as_str(), "[Kiss]", "😘");
    r
}

pub open spec fn spec_wechat_chunk_4(s: Seq<char>) -> Seq<char> {
    spec_replace_all(spec_replace_all(spec_replace_all(spec_replace_all(spec_replace_all(spec_replace_all(spec_replace_all(spec_replace_all(spec_replace_all(spec_replace_all(spec_replace_all(spec_replace_all(spec_replace_all(spec_replace_all(spec_replace_all(spec_replace_all(spec_replace_all(spec_replace_all(spec_replace_all(spec_replace_all(spec_replace_all(spec_replace_all(spec_replace_all(spec_replace_all(s, "[可怜]"@, "😻"@), "[Whimper]"@, "😻"@), "[菜刀]"@, "🔪"@), "[Cleaver]"@, "🔪"@), "[西瓜]"@, "🍉"@), "[Melon]"@, "🍉"@), "[啤酒]"@, "🍺"@), "[Beer]"@, "🍺"@), "[咖啡]"@, "☕"@), "[Coffee]"@, "☕"@), "[猪头]"@, "🐷"@), "[Pig]"@, "🐷"@), "[玫瑰]"@, "🌹"@), "[Rose]"@, "🌹"@), "[凋谢]"@, "🥀"@), "[Wilt]"@, "🥀"@), "[嘴唇]"@, "💋"@), "[Lip]"@, "💋"@), "[爱心]"@, "❤️"@), "[Heart]"@, "❤️"@), "[心碎]"@, "💔"@), "[BrokenHeart]"@, "💔"@), "[蛋糕]"@, "🎂"@), "[Cake]"@, "🎂"@)
}

fn wechat_chunk_4(s: &str) -> (r: String)
    ensures
        r@ == spec_wechat_chunk_4(s@),
{
    let r = replace_all(s, "[可怜]", "😻");
    let r = replace_all(r.as_str(), "[Whimper]", "😻");
    let r = replace_all(r.as_str(), "[菜刀]", "🔪");
    let r = replace_all(r.as_str(), "[Cleaver]", "🔪");
    let r = replace_all(r.as_str(), "[西瓜]", "🍉");
    let r = replace_all(r.as_str(), "[Melon]", "🍉");
    let r = replace_all(r.as_str(), "[啤酒]", "🍺");
    let r = replace_all(r.as_str(), "[Beer]", "🍺");
    let r = replace_all(r.as_str(), "[咖啡]", "☕");
    let r = replace_all(r.as_str(), "[Coffee]", "☕");
    let r = replace_all(r.as_str(), "[猪头]", "🐷");
    let r = replace_all(r.as_str(), "[Pig]", "🐷");
    let r = replace_all(r.as_str(), "[玫瑰]", "🌹");
    let r = replace_all(r.as_str(), "[Rose]", "🌹");
    let r = replace_all(r.as_str(), "[凋谢]", "🥀");
    let r = replace_all(r.as_str(), "[Wilt]", "🥀");
    let r = replace_all(r.as_str(), "[嘴唇]", "💋");
    let r = replace_all(r.as_str(), "[Lip]", "💋");
    let r = replace_all(r.as_str(), "[爱心]", "❤️");
    let r = replace_all(r.as_str(), "[Heart]", "❤️");
    let r = replace_all(r.as_str(), "[心碎]", "💔");
    let r = replace_all(r.as_str(), "[BrokenHeart]", "💔");
    let r = replace_all(r.as_str(), "[蛋糕]", "🎂");
    let r = replace_all(r.as_str(), "[Cake]", "🎂");
    r
}

pub open spec fn spec_wechat_chunk_5(s: Seq<char>) -> Seq<char> {
    spec_replace_all(spec_replace_all(spec_replace_all(spec_replace_all(spec_replace_all(spec_replace_all(spec_replace_all(spec_replace_all(spec_replace_all(spec_replace_all(spec_replace_all(spec_replace_all(spec_replace_all(spec_replace_all(spec_replace_all(spec_replace_all(spec_replace_all(spec_replace_all(spec_replace_all(spec_replace_all(spec_replace_all(spec_replace_all(spec_replace_all(spec_replace_all(s, "[炸弹]"@, "💣"@), "[Bomb]"@, "💣"@), "[便便]"@, "💩"@), "[Poop]"@, "💩"@), "[月亮]"@, "🌃"@), "[Moon]"@, "🌃"@), "[太阳]"@, "🌞"@), "[Sun]"@, "🌞"@), "[拥抱]"@, "🤗"@), "[Hug]"@, "🤗"@), "[强]"@, "👍"@), "[Strong]"@, "👍"@), "[弱]"@, "👎"@), "[Weak]"@, "👎"@), "[握手]"@, "🤝"@), "[Shake]"@, "🤝"@), "[胜利]"@, "✌️"@), "[Victory]"@, "✌️"@), "[抱拳]"@, "🙏"@), "[Salute]"@, "🙏"@), "[勾引]"@, "💁♂"@), "[Beckon]"@, "💁♂"@), "[拳头]"@, "👊"@), "[Fist]"@, "👊"@)
}

fn wechat_chunk_5(s: &str) -> (r: String)
    ensures
        r@ == spec_wechat_chunk_5(s@),
{
    let r = replace_all(s, "[炸弹]", "💣");
    let r = replace_all(r.as_str(), "[Bomb]", "💣");
    let r = replace_all(r.as_str(), "[便便]", "💩");
    let r = replace_all(r.as_str(), "[Poop]", "💩");
    let r = replace_all(r.as_str(), "[月亮]", "🌃");
    let r = replace_all(r.as_str(), "[Moon]", "🌃");
    let r = replace_all(r.as_str(), "[太阳]", "🌞");
    let r = replace_all(r.as_str(), "[Sun]", "🌞");
    let r = replace_all(r.as_str(), "[拥抱]", "🤗");
    let r = replace_all(r.as_str(), "[Hug]", "🤗");
    let r = replace_all(r.as_str(), "[强]", "👍");
    let r = replace_all(r.as_str(), "[Strong]", "👍");
    let r = replace_all(r.as_str(), "[弱]", "👎");
    let r = replace_all(r.as_str(), "[Weak]", "👎");
    let r = replace_all(r.as_str(), "[握手]", "🤝");
    let r = replace_all(r.as_str(), "[Shake]", "🤝");
    let r = replace_all(r.as_str(), "[胜利]", "✌️");
    let r = replace_all(r.as_str(), "[Victory]", "✌️");
    let r = replace_all(r.as_str(), "[抱拳]", "🙏");
    let r = replace_all(r.as_str(), "[Salute]", "🙏");
    let r = replace_all(r.as_str(), "[勾引]", "💁♂");
    let r = replace_all(r.as_str(), "[Beckon]", "💁♂");
    let r = replace_all(r.as_str(), "[拳头]", "👊");
    let r = replace_all(r.as_str(), "[Fist]", "👊");
    r
}

pub open spec fn spec_wechat_chunk_6(s: Seq<char>) -> Seq<char> {
    spec_replace_all(spec_replace_all(spec_replace_all(spec_replace_all(spec_replace_all(spec_replace_all(spec_replace_all(spec_replace_all(spec_replace_all(spec_replace_all(spec_replace_all(spec_replace_all(spec_replace_all(spec_replace_all(spec_replace_all(spec_replace_all(spec_replace_all(spec_replace_all(spec_replace_all(spec_replace_all(spec_replace_all(spec_replace_all(spec_replace_all(spec_replace_all(s, "[OK]"@, "👌"@), "[跳跳]"@, "💃"@), "[Waddle]"@, "💃"@), "[发抖]"@, "🙇"@), "[Tremble]"@, "🙇"@), "[怄火]"@, "😡"@), "[Aaagh!]"@, "😡"@), "[转圈]"@, "🕺"@), "[Twirl]"@, "🕺"@), "[嘿哈]"@, "🤣"@), "[Hey]"@, "🤣"@), "[捂脸]"@, "🤦♂"@), "[Facepalm]"@, "🤦♂"@), "[奸笑]"@, "😜"@), "[Smirk]"@, "😜"@), "[机智]"@, "🤓"@), "[Smart]"@, "🤓"@), "[皱眉]"@, "😟"@), "[Concerned]"@, "😟"@), "[耶]"@, "✌️"@), "[Yeah!]"@, "✌️"@), "[红包]"@, "🧧"@), "[Packet]"@, "🧧"@), "[鸡]"@, "🐥"@)
}

fn wechat_chunk_6(s: &str) -> (r: String)
    ensures
        r@ == spec_wechat_chunk_6(s@),
{
    let r = replace_all(s, "[OK]", "👌");
    let r = replace_all(r.as_str(), "[跳跳]", "💃");
    let r = replace_all(r.as_str(), "[Waddle]", "💃");
    let r = replace_all(r.as_str(), "[发抖]", "🙇");
    let r = replace_all(r.as_str(), "[Tremble]", "🙇");
    let r = replace_all(r.as_str(), "[怄火]", "😡");
    let r = replace_all(r.as_str(), "[Aaagh!]", "😡");
    let r = replace_all(r.as_str(), "[转圈]", "🕺");
    let r = replace_all(r.as_str(), "[Twirl]", "🕺");
    let r = replace_all(r.as_str(), "[嘿哈]", "🤣");
    let r = replace_all(r.as_str(), "[Hey]", "🤣");
    let r = replace_all(r.as_str(), "[捂脸]", "🤦♂");
    let r = replace_all(r.as_str(), "[Facepalm]", "🤦♂");
    let r = replace_all(r.as_str(), "[奸笑]", "😜");
    let r = replace_all(r.as_str(), "[Smirk]", "😜");
    let r = replace_all(r.as_str(), "[机智]", "🤓");
    let r = replace_all(r.as_str(), "[Smart]", "🤓");
    let r = replace_all(r.as_str(), "[皱眉]", "😟");
    let r = replace_all(r.as_str(), "[Concerned]", "😟");
    let r = replace_all(r.as_str(), "[耶]", "✌️");
    let r = replace_all(r.as_str(), "[Yeah!]", "✌️");
    let r = replace_all(r.as_str(), "[红包]", "🧧");
    let r = replace_all(r.as_str(), "[Packet]", "🧧");
    let r = replace_all(r.as_str(), "[鸡]", "🐥");
    r
}

pub open spec fn spec_wechat_chunk_7(s: Seq<char>) -> Seq<char> {
    spec_replace_all(spec_replace_all(spec_replace_all(spec_replace_all(spec_replace_all(spec_replace_all(spec_replace_all(spec_replace_all(spec_replace_all(spec_replace_all(spec_replace_all(spec_replace_all(spec_replace_all(spec_replace_all(spec_replace_all(spec_replace_all(spec_replace_all(spec_replace_all(spec_replace_all(spec_replace_all(spec_replace_all(spec_replace_all(spec_replace_all(spec_replace_all(s, "[Chick]"@, "🐥"@), "[蜡烛]"@, "🕯️"@), "[Candle]"@, "🕯️"@), "[糗大了]"@, "😥"@), "[ThumbsUp]"@, "👍"@), "[ThumbsDown]"@, "👎"@), "[Peace]"@, "✌️"@), "[Pleased]"@, "😊"@), "[Rich]"@, "🀅"@), "[Pup]"@, "🐶"@), "[吃瓜]"@, "🙄🍉"@), "[Onlooker]"@, "🙄🍉"@), "[加油]"@, "💪😁"@), "[GoForIt]"@, "💪😁"@), "[加油加油]"@, "💪😷"@), "[汗]"@, "😓"@), "[Sweats]"@, "😓"@), "[天啊]"@, "😱"@), "[OMG]"@, "😱"@), "[Emm]"@, "🤔"@), "[社会社会]"@, "😏"@), "[Respect]"@, "😏"@), "[旺柴]"@, "🐶😏"@), "[Doge]"@, "🐶😏"@)
}

fn wechat_chunk_7(s: &str) -> (r: String)
    ensures
        r@ == spec_wechat_chunk_7(s@),
{
    let r = replace_all(s, "[Chick]", "🐥");
    let r = replace_all(r.as_str(), "[蜡烛]", "🕯️");
    let r = replace_all(r.as_str(), "[Candle]", "🕯️");
    let r = replace_all(r.as_str(), "[糗大了]", "😥");
    let r = replace_all(r.as_str(), "[ThumbsUp]", "👍");
    let r = replace_all(r.as_str(), "[ThumbsDown]", "👎");
    let r = replace_all(r.as_str(), "[Peace]", "✌️");
    let r = replace_all(r.as_str(), "[Pleased]", "😊");
    let r = replace_all(r.as_str(), "[Rich]", "🀅");
    let r = replace_all(r.as_str(), "[Pup]", "🐶");
    let r = replace_all(r.as_str(), "[吃瓜]", "🙄🍉");
    let r = replace_all(r.as_str(), "[Onlooker]", "🙄🍉");
    let r = replace_all(r.as_str(), "[加油]", "💪😁");
    let r = replace_all(r.as_str(), "[GoForIt]", "💪😁");
    let r = replace_all(r.as_str(), "[加油加油]", "💪😷");
    let r = replace_all(r.as_str(), "[汗]", "😓");
    let r = replace_all(r.as_str(), "[Sweats]", "😓");
    let r = replace_all(r.as_str(), "[天啊]", "😱");
    let r = replace_all(r.as_str(), "[OMG]", "😱");
    let r = replace_all(r.as_str(), "[Emm]", "🤔");
    let r = replace_all(r.as_str(), "[社会社会]", "😏");
    let r = replace_all(r.as_str(), "[Respect]", "😏");
    let r = replace_all(r.as_str(), "[旺柴]", "🐶😏");
    let r = replace_all(r.as_str(), "[Doge]", "🐶😏");
    r
}

pub open spec fn spec_wechat_chunk_8(s: Seq<char>) -> Seq<char> {
    spec_replace_all(spec_replace_all(spec_replace_all(spec_replace_all(spec_replace_all(spec_replace_all(spec_replace_all(spec_replace_all(spec_replace_all(spec_replace_all(spec_replace_all(spec_replace_all(spec_replace_all(spec_replace_all(spec_replace_all(spec_replace_all(spec_replace_all(spec_replace_all(spec_replace_all(spec_replace_all(spec_replace_all(spec_replace_all(spec_replace_all(spec_replace_all(s, "[好的]"@, "😏👌"@), "[NoProb]"@, "😏👌"@), "[哇]"@, "🤩"@), "[Wow]"@, "🤩"@), "[打脸]"@, "😟🤚"@), "[MyBad]"@, "😟🤚"@), "[破涕为笑]"@, "😂"@), "[破涕為笑]"@, "😂"@), "[Lol]"@, "😂"@), "[苦涩]"@, "😭"@), "[Hurt]"@, "😭"@), "[翻白眼]"@, "🙄"@), "[Boring]"@, "🙄"@), "[裂开]"@, "🫠"@), "[Broken]"@, "🫠"@), "[爆竹]"@, "🧨"@), "[Firecracker]"@, "🧨"@), "[烟花]"@, "🎆"@), "[Fireworks]"@, "🎆"@), "[福]"@, "🧧"@), "[Blessing]"@, "🧧"@), "[礼物]"@, "🎁"@), "[Gift]"@, "🎁"@), "[庆祝]"@, "🎉"@)
}

fn wechat_chunk_8(s: &str) -> (r: String)
    ensures
        r@ == spec_wechat_chunk_8(s@),
{
    let r = replace_all(s, "[好的]", "😏👌");
    let r = replace_all(r.as_str(), "[NoProb]", "😏👌");
    let r = replace_all(r.as_str(), "[哇]", "🤩");
    let r = replace_all(r.as_str(), "[Wow]", "🤩");
    let r = replace_all(r.as_str(), "[打脸]", "😟🤚");
    let r = replace_all(r.as_str(), "[MyBad]", "😟🤚");
    let r = replace_all(r.as_str(), "[破涕为笑]", "😂");
    let r = replace_all(r.as_str(), "[破涕為笑]", "😂");
    let r = replace_all(r.as_str(), "[Lol]", "😂");
    let r = replace_all(r.as_str(), "[苦涩]", "😭");
    let r = replace_all(r.as_str(), "[Hurt]", "😭");
    let r = replace_all(r.as_str(), "[翻白眼]", "🙄");
    let r = replace_all(r.as_str(), "[Boring]", "🙄");
    let r = replace_all(r.as_str(), "[裂开]", "🫠");
    let r = replace_all(r.as_str(), "[Broken]", "🫠");
    let r = replace_all(r.as_str(), "[爆竹]", "🧨");
    let r = replace_all(r.as_str(), "[Firecracker]", "🧨");
    let r = replace_all(r.as_str(), "[烟花]", "🎆");
    let r = replace_all(r.as_str(), "[Fireworks]", "🎆");
    let r = replace_all(r.as_str(), "[福]", "🧧");
    let r = replace_all(r.as_str(), "[Blessing]", "🧧");
    let r = replace_all(r.as_str(), "[礼物]", "🎁");
    let r = replace_all(r.as_str(), "[Gift]", "🎁");
    let r = replace_all(r.as_str(), "[庆祝]", "🎉");
    r
}

pub open spec fn spec_wechat_chunk_9(s: Seq<char>) -> Seq<char> {
    spec_replace_all(spec_replace_all(spec_replace_all(spec_replace_all(spec_replace_all(spec_replace_all(spec_replace_all(spec_replace_all(spec_replace_all(spec_replace_all(spec_replace_all(spec_replace_all(spec_replace_all(spec_replace_all(spec_replace_all(spec_replace_all(spec_replace_all(spec_replace_all(spec_replace_all(spec_replace_all(s, "[Party]"@, "🎉"@), "[合十]"@, "🙏"@), "[Worship]"@, "🙏"@), "[叹气]"@, "😮💨"@), "[Sigh]"@, "😮💨"@), "[让我看看]"@, "👀"@), "[LetMeSee]"@, "👀"@), "[666]"@, "6️⃣6️⃣6️⃣"@), "[无语]"@, "😑"@), "[Duh]"@, "😑"@), "[失望]"@, "😞"@), "[Let Down]"@, "😞"@), "[恐惧]"@, "😨"@), "[Terror]"@, "😨"@), "[脸红]"@, "😳"@), "[Flushed]"@, "😳"@), "[生病]"@, "😷"@), "[Sick]"@, "😷"@), "[笑脸]"@, "😁"@), "[Happy]"@, "😁"@)
}

fn wechat_chunk_9(s: &str) -> (r: String)
    ensures
        r@ == spec_wechat_chunk_9(s@),
{
    let r = replace_all(s, "[Party]", "🎉");
    let r = replace_all(r.as_str(), "[合十]", "🙏");
    let r = replace_all(r.as_str(), "[Worship]", "🙏");
    let r = replace_all(r.as_str(), "[叹气]", "😮💨");
    let r = replace_all(r.as_str(), "[Sigh]", "😮💨");
    let r = replace_all(r.as_str(), "[让我看看]", "👀");
    let r = replace_all(r.as_str(), "[LetMeSee]", "👀");
    let r = replace_all(r.as_str(), "[666]", "6️⃣6️⃣6️⃣");
    let r = replace_all(r.as_str(), "[无语]", "😑");
    let r = replace_all(r.as_str(), "[Duh]", "😑");
    let r = replace_all(r.as_str(), "[失望]", "😞");
    let r = replace_all(r.as_str(), "[Let Down]", "😞");
    let r = replace_all(r.as_str(), "[恐惧]", "😨");
    let r = replace_all(r.as_str(), "[Terror]", "😨");
    let r = replace_all(r.as_str(), "[脸红]", "😳");
    let r = replace_all(r.as_str(), "[Flushed]", "😳");
    let r = replace_all(r.as_str(), "[生病]", "😷");
    let r = replace_all(r.as_str(), "[Sick]", "😷");
    let r = replace_all(r.as_str(), "[笑脸]", "😁");
    let r = replace_all(r.as_str(), "[Happy]", "😁");
    r
}

/// What WeChat text renders to: every `[...]` token of the fixed table
/// replaced by its emoji, applied in table order.
pub open spec fn spec_replace_wechat_emoji(s: Seq<char>) -> Seq<char> {
    spec_wechat_chunk_9(spec_wechat_chunk_8(spec_wechat_chunk_7(spec_wechat_chunk_6(spec_wechat_chunk_5(spec_wechat_chunk_4(spec_wechat_chunk_3(spec_wechat_chunk_2(spec_wechat_chunk_1(spec_wechat_chunk_0(s))))))))))
}

pub fn replace_wechat_emoji(content: &str) -> (r: String)
    ensures
        r@ == spec_replace_wechat_emoji(content@),
{
    let r = wechat_chunk_0(content);
    let r = wechat_chunk_1(r.as_str());
    let r = wechat_chunk_2(r.as_str());
    let r = wechat_chunk_3(r.as_str());
    let r = wechat_chunk_4(r.as_str());
    let r = wechat_chunk_5(r.as_str());
    let r = wechat_chunk_6(r.as_str());
    let r = wechat_chunk_7(r.as_str());
    let r = wechat_chunk_8(r.as_str());
    let r = wechat_chunk_9(r.as_str());
    r
}


// ---------- QQ card readers ----------

use crate::onebot::protocol::json::{JsonVal, JsonValue, spec_get, spec_str_field, str_field};
use crate::text::{spec_escape_html, escape_html};

/// A venue to send to Telegram; coordinates stay decimal text.
#[derive(Debug, Clone)]
pub struct VenueInfo {
    pub lat: String,
    pub lon: String,
    pub title: String,
    pub address: String,
}

/// The string values found under `meta.*.<key>`: for each child of the
/// card's `meta` object, its `key` field when that field is a string.
/// A child whose `key` field exists but is not a string poisons the
/// collection.
pub open spec fn spec_meta_str_values(
    children: Seq<(Seq<char>, JsonVal)>,
    key: Seq<char>,
) -> Option<Seq<Seq<char>>>
    decreases children.len(),
{
    if children.len() == 0 {
        Some(Seq::empty())
    } else {
        match spec_meta_str_values(children.skip(1), key) {
            None => None,
            Some(rest) => match spec_get(children[0].1, key) {
                None => Some(rest),
                Some(JsonVal::Text(s)) => Some(seq![s] + rest),
                Some(_) => None,
            },
        }
    }
}

/// The children of the card's `meta` object; a missing or non-object
/// `meta` has none.
pub open spec fn spec_meta_children(v: JsonVal) -> Seq<(Seq<char>, JsonVal)> {
    match spec_get(v, "meta"@) {
        Some(JsonVal::Object(children)) => children,
        _ => Seq::empty(),
    }
}

/// Exactly one string under `meta.*.<key>`, as the card readers demand.
pub open spec fn spec_meta_unique_str(v: JsonVal, key: Seq<char>) -> Option<Seq<char>> {
    match spec_meta_str_values(spec_meta_children(v), key) {
        Some(values) => if values.len() == 1 {
            Some(values[0])
        } else {
            None
        },
        None => None,
    }
}

/// Whether any child of `meta` carries the field at all.
pub open spec fn spec_meta_has_key(children: Seq<(Seq<char>, JsonVal)>, key: Seq<char>) -> bool
    decreases children.len(),
{
    if children.len() == 0 {
        false
    } else {
        spec_get(children[0].1, key) is Some || spec_meta_has_key(children.skip(1), key)
    }
}

fn meta_children<'a>(v: &'a JsonValue) -> (r: Option<&'a Vec<(String, JsonValue)>>)
    ensures
        match r {
            Some(children) => spec_meta_children(v@) == crate::onebot::protocol::json::json_field_views(
                children@,
            ),
            None => spec_meta_children(v@) == Seq::<(Seq<char>, JsonVal)>::empty(),
        },
{
    match v.get("meta") {
        Some(meta) => match meta {
            JsonValue::Object(children) => Some(children),
            _ => None,
        },
        None => None,
    }
}

/// Collects the string values under `meta.*.<key>` and whether any child
/// carries the key at all.
fn meta_str_values(children: &Vec<(String, JsonValue)>, key: &str) -> (r: (
    Option<Vec<String>>,
    bool,
))
    ensures
        ({
            let views = crate::onebot::protocol::json::json_field_views(children@);
            &&& (match r.0 {
                Some(values) => spec_meta_str_values(views, key@) == Some(
                    Seq::new(values@.len(), |i: int| values@[i]@),
                ),
                None => spec_meta_str_values(views, key@) is None,
            })
            &&& r.1 == spec_meta_has_key(views, key@)
        }),
{
    let ghost views = crate::onebot::protocol::json::json_field_views(children@);
    proof {
        crate::onebot::protocol::json::lemma_json_field_views(children@);
    }
    let n = children.len();
    let mut values: Vec<String> = Vec::new();
    let mut has_key = false;
    let mut i: usize = n;
    // Scan from the back so the spec's head-first recursion lines up.
    while i > 0
        invariant
            0 <= i <= n,
            n == children@.len(),
            views == crate::onebot::protocol::json::json_field_views(children@),
            views.len() == n,
            forall|k: int| 0 <= k < n ==> #[trigger] views[k] == (
                children@[k].0@,
                children@[k].1@,
            ),
            spec_meta_str_values(views.skip(i as int), key@) == Some(
                Seq::new(values@.len(), |k: int| values@[k]@),
            ),
            has_key == spec_meta_has_key(views.skip(i as int), key@),
        decreases i,
    {
        i = i - 1;
        let ghost tail = views.skip(i as int);
        proof {
            assert(tail[0] == views[i as int]);
            assert(tail.skip(1) =~= views.skip(i as int + 1));
        }
        match children[i].1.get(key) {
            None => {
            },
            Some(f) => {
                has_key = true;
                match f.as_text() {
                    Some(s) => {
                        let ghost pre = values@;
                        values.insert(0, s.clone());
                        proof {
                            assert(Seq::new(values@.len(), |k: int| values@[k]@) =~= seq![s@]
                                + Seq::new(pre.len(), |k: int| pre[k]@));
                        }
                    },
                    None => {
                        proof {
                            lemma_meta_str_values_poisoned(views, i as int, key@);
                            lemma_meta_has_key_from(views, i as int, key@);
                        }
                        return (None, true);
                    },
                }
            },
        }
    }
    proof {
        assert(views.skip(0) =~= views);
    }
    (Some(values), has_key)
}

/// A child whose field is present but not a string poisons the whole
/// collection, wherever it sits.
proof fn lemma_meta_str_values_poisoned(views: Seq<(Seq<char>, JsonVal)>, i: int, key: Seq<char>)
    requires
        0 <= i < views.len(),
        spec_get(views[i].1, key) is Some,
        !(spec_get(views[i].1, key) matches Some(JsonVal::Text(_))),
    ensures
        spec_meta_str_values(views, key) is None,
    decreases i + 1,
{
    if i == 0 {
        if spec_meta_str_values(views.skip(1), key) is Some {
        }
    } else {
        assert(views.skip(1)[i - 1] == views[i]);
        lemma_meta_str_values_poisoned(views.skip(1), i - 1, key);
    }
}

/// A child that carries the field makes the whole object carry it.
proof fn lemma_meta_has_key_from(views: Seq<(Seq<char>, JsonVal)>, i: int, key: Seq<char>)
    requires
        0 <= i < views.len(),
        spec_get(views[i].1, key) is Some,
    ensures
        spec_meta_has_key(views, key),
    decreases i + 1,
{
    if i > 0 {
        assert(views.skip(1)[i - 1] == views[i]);
        lemma_meta_has_key_from(views.skip(1), i - 1, key);
    }
}

/// Exactly one string value under `meta.*.<key>`, or nothing.
fn meta_unique_str(v: &JsonValue, key: &str) -> (r: Option<String>)
    ensures
        match r {
            Some(s) => spec_meta_unique_str(v@, key@) == Some(s@),
            None => spec_meta_unique_str(v@, key@) is None,
        },
{
    match meta_children(v) {
        None => {
            proof {
                assert(spec_meta_str_values(spec_meta_children(v@), key@) =~= Some(
                    Seq::<Seq<char>>::empty(),
                ));
            }
            None
        },
        Some(children) => {
            let (values, _) = meta_str_values(children, key);
            match values {
                Some(mut vs) => {
                    if vs.len() == 1 {
                        let s = vs.remove(0);
                        Some(s)
                    } else {
                        None
                    }
                },
                None => None,
            }
        },
    }
}

/// Whether `meta.*.<key>` matches anything at all.
fn meta_any(v: &JsonValue, key: &str) -> (r: bool)
    ensures
        r == spec_meta_has_key(spec_meta_children(v@), key@),
{
    match meta_children(v) {
        None => false,
        Some(children) => {
            let (_, has_key) = meta_str_values(children, key);
            has_key
        },
    }
}

/// What a QQ location-share card yields: the unique name, address,
/// latitude and longitude strings under `meta.*`.
pub open spec fn spec_extract_location(v: JsonVal) -> Option<(
    Seq<char>,
    Seq<char>,
    Seq<char>,
    Seq<char>,
)> {
    match (
        spec_meta_unique_str(v, "name"@),
        spec_meta_unique_str(v, "address"@),
        spec_meta_unique_str(v, "lat"@),
        spec_meta_unique_str(v, "lng"@),
    ) {
        (Some(title), Some(address), Some(lat), Some(lon)) => Some((title, address, lat, lon)),
        _ => None,
    }
}

/// Reads a location-share card into a venue; a card whose paths are
/// missing or doubled is rejected.
pub fn extract_location_from_json(v: &JsonValue) -> (r: Result<VenueInfo, ()>)
    ensures
        match r {
            Ok(venue) => spec_extract_location(v@) == Some(
                (venue.title@, venue.address@, venue.lat@, venue.lon@),
            ),
            Err(()) => spec_extract_location(v@) is None,
        },
{
    match (
        meta_unique_str(v, "name"),
        meta_unique_str(v, "address"),
        meta_unique_str(v, "lat"),
        meta_unique_str(v, "lng"),
    ) {
        (Some(title), Some(address), Some(lat), Some(lon)) => Ok(
            VenueInfo { lat, lon, title, address },
        ),
        _ => Err(()),
    }
}

/// The HTML body of a share card.
pub open spec fn spec_share_html(
    title: Seq<char>,
    description: Seq<char>,
    url: Seq<char>,
    source: Seq<char>,
) -> Seq<char> {
    "<u>"@ + spec_escape_html(title) + "</u>\n\n"@ + spec_escape_html(description) + "\n\nvia <a href=\""@
        + spec_escape_html(url) + "\">"@ + spec_escape_html(source) + "</a>"@
}

fn share_html(title: &str, description: &str, url: &str, source: &str) -> (r: String)
    ensures
        r@ == spec_share_html(title@, description@, url@, source@),
{
    let mut r = "<u>".to_owned();
    let t = escape_html(title);
    r.append(t.as_str());
    r.append("</u>\n\n");
    let d = escape_html(description);
    r.append(d.as_str());
    r.append("\n\nvia <a href=\"");
    let u = escape_html(url);
    r.append(u.as_str());
    r.append("\">");
    let sc = escape_html(source);
    r.append(sc.as_str());
    r.append("</a>");
    proof {
        assert(r@ =~= spec_share_html(title@, description@, url@, source@));
    }
    r
}

/// The HTML body of a `share` segment: the title doubles as the link
/// source.
pub fn share_segment_html(title: &str, content: &str, url: &str) -> (r: String)
    ensures
        r@ == spec_share_html(title@, content@, url@, title@),
{
    share_html(title, content, url, title)
}

/// What a QQ share card yields. A card with a `qqdocurl` uses it with
/// `meta.*.title` as the source; one with only a `jumpUrl` uses it with
/// `meta.*.tag`; a card with neither yields the empty string; anything
/// else malformed is rejected.
pub open spec fn spec_extract_share(v: JsonVal) -> Result<Seq<char>, ()> {
    let children = spec_meta_children(v);
    if spec_meta_has_key(children, "qqdocurl"@) {
        match (
            spec_meta_unique_str(v, "qqdocurl"@),
            spec_meta_unique_str(v, "title"@),
            spec_meta_unique_str(v, "desc"@),
            spec_str_field(v, "prompt"@),
        ) {
            (Some(url), Some(source), Some(description), Some(title)) => Ok(
                spec_share_html(title, description, url, source),
            ),
            _ => Err(()),
        }
    } else if spec_meta_has_key(children, "jumpUrl"@) {
        match (
            spec_meta_unique_str(v, "jumpUrl"@),
            spec_meta_unique_str(v, "tag"@),
            spec_meta_unique_str(v, "desc"@),
            spec_str_field(v, "prompt"@),
        ) {
            (Some(url), Some(source), Some(description), Some(title)) => Ok(
                spec_share_html(title, description, url, source),
            ),
            _ => Err(()),
        }
    } else {
        Ok(Seq::empty())
    }
}

/// Reads a share card into its HTML body, or the empty string when the
/// card carries no link.
pub fn extract_share_from_json(v: &JsonValue) -> (r: Result<String, ()>)
    ensures
        match r {
            Ok(s) => spec_extract_share(v@) == Ok::<Seq<char>, ()>(s@),
            Err(()) => spec_extract_share(v@) is Err,
        },
{
    if meta_any(v, "qqdocurl") {
        match (
            meta_unique_str(v, "qqdocurl"),
            meta_unique_str(v, "title"),
            meta_unique_str(v, "desc"),
            str_field(v, "prompt"),
        ) {
            (Some(url), Some(source), Some(description), Some(title)) => Ok(
                share_html(
                    title.as_str(),
                    description.as_str(),
                    url.as_str(),
                    source.as_str(),
                ),
            ),
            _ => Err(()),
        }
    } else if meta_any(v, "jumpUrl") {
        match (
            meta_unique_str(v, "jumpUrl"),
            meta_unique_str(v, "tag"),
            meta_unique_str(v, "desc"),
            str_field(v, "prompt"),
        ) {
            (Some(url), Some(source), Some(description), Some(title)) => Ok(
                share_html(
                    title.as_str(),
                    description.as_str(),
                    url.as_str(),
                    source.as_str(),
                ),
            ),
            _ => Err(()),
        }
    } else {
        let empty = String::new();
        Ok(empty)
    }
}

} // verus!
