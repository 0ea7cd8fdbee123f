//! The couriers this library knows, and what each one's format and vocabulary are.
use vstd::prelude::*;
use crate::markup::{selectors_view, texts_view};
use crate::state::StateType;
use crate::status::{EventView, TrackingStatus, events_view};
use crate::extract::opt_events;

pub mod cjlogistics;
pub mod epost;
pub mod epostems;
pub mod hanjin;
pub mod logen;
pub mod lotte;
pub mod cupost;
pub mod gspostbox;
pub mod chunil;
pub mod daesin;
pub mod ilyanglogis;
pub mod kyoungdong;
pub mod warpex;
pub mod fedex;
pub mod cainiao;

verus! {

/// One of the supported couriers.
#[derive(Clone, Copy, PartialEq, Eq, Structural, Debug)]
pub enum CourierType {
    Cjlogistics,
    Epost,
    EpostEMS,
    Hanjin,
    Logen,
    Lotte,
    Cupost,
    Gspostbox,
    Chunil,
    Daesin,
    IlyangLogis,
    Kyoungdong,
    Warpex,
    Fedex,
    Cainiao,
}

/// The courier's identifier.
pub open spec fn id_of(c: CourierType) -> Seq<char> {
    match c {
        CourierType::Cjlogistics => "kr.cjlogistics"@,
        CourierType::Epost => "kr.epost"@,
        CourierType::EpostEMS => "kr.epostems"@,
        CourierType::Hanjin => "kr.hanjin"@,
        CourierType::Logen => "kr.logen"@,
        CourierType::Lotte => "kr.lotte"@,
        CourierType::Cupost => "kr.cupost"@,
        CourierType::Gspostbox => "kr.gspostbox"@,
        CourierType::Chunil => "kr.chunil"@,
        CourierType::Daesin => "kr.daesin"@,
        CourierType::IlyangLogis => "kr.ilyanglogis"@,
        CourierType::Kyoungdong => "kr.kyoungdong"@,
        CourierType::Warpex => "us.warpex"@,
        CourierType::Fedex => "us.fedex"@,
        CourierType::Cainiao => "cn.cainiao"@,
    }
}

/// The courier's display name.
pub open spec fn name_of(c: CourierType) -> Seq<char> {
    match c {
        CourierType::Cjlogistics => "CJ대한통운"@,
        CourierType::Epost => "우체국택배"@,
        CourierType::EpostEMS => "우체국 EMS"@,
        CourierType::Hanjin => "한진택배"@,
        CourierType::Logen => "로젠택배"@,
        CourierType::Lotte => "롯데택배"@,
        CourierType::Cupost => "CU 편의점택배"@,
        CourierType::Gspostbox => "GS Postbox"@,
        CourierType::Chunil => "천일택배"@,
        CourierType::Daesin => "대신택배"@,
        CourierType::IlyangLogis => "일양로지스"@,
        CourierType::Kyoungdong => "경동택배"@,
        CourierType::Warpex => "WarpEX"@,
        CourierType::Fedex => "FedEx"@,
        CourierType::Cainiao => "CAINIAO"@,
    }
}

/// The expected format of the courier's numbers, in words.
pub open spec fn hint_of(c: CourierType) -> Seq<char> {
    match c {
        CourierType::Cjlogistics => "숫자 10자리 또는 12자리"@,
        CourierType::Epost => "숫자 13자리"@,
        CourierType::EpostEMS => "영문 2자리, 숫자 9자리, 영문 2자리"@,
        CourierType::Hanjin => "숫자 12자리 또는 숫자 14자리"@,
        CourierType::Logen => "숫자 11자리"@,
        CourierType::Lotte => "숫자 10자리 또는 숫자 12자리 또는 숫자 13자리"@,
        CourierType::Cupost => "숫자 10자리 또는 11자리 또는 12자리"@,
        CourierType::Gspostbox => "숫자 10자리 또는 12자리"@,
        CourierType::Chunil => "숫자 11자리"@,
        CourierType::Daesin => "숫자 12자리 또는 13자리"@,
        CourierType::IlyangLogis => "숫자 10자리"@,
        CourierType::Kyoungdong => "숫자 13자리"@,
        CourierType::Warpex => "숫자 12자리"@,
        CourierType::Fedex => "숫자 12자리"@,
        CourierType::Cainiao => "숫자 13자리 또는 LP + 숫자 14자리"@,
    }
}

/// Whether `s` has the courier's tracking-number format.
pub open spec fn valid_for(c: CourierType, s: Seq<char>) -> bool {
    match c {
        CourierType::Cjlogistics => cjlogistics::valid(s),
        CourierType::Epost => epost::valid(s),
        CourierType::EpostEMS => epostems::valid(s),
        CourierType::Hanjin => hanjin::valid(s),
        CourierType::Logen => logen::valid(s),
        CourierType::Lotte => lotte::valid(s),
        CourierType::Cupost => cupost::valid(s),
        CourierType::Gspostbox => gspostbox::valid(s),
        CourierType::Chunil => chunil::valid(s),
        CourierType::Daesin => daesin::valid(s),
        CourierType::IlyangLogis => ilyanglogis::valid(s),
        CourierType::Kyoungdong => kyoungdong::valid(s),
        CourierType::Warpex => warpex::valid(s),
        CourierType::Fedex => fedex::valid(s),
        CourierType::Cainiao => cainiao::valid(s),
    }
}

/// The courier's classification of a status text.
pub open spec fn classify(c: CourierType, s: Seq<char>) -> StateType {
    match c {
        CourierType::Cjlogistics => cjlogistics::state_of(s),
        CourierType::Epost => epost::state_of(s),
        CourierType::EpostEMS => epostems::state_of(s),
        CourierType::Hanjin => hanjin::state_of(s),
        CourierType::Logen => logen::state_of(s),
        CourierType::Lotte => lotte::state_of(s),
        CourierType::Cupost => cupost::state_of(s),
        CourierType::Gspostbox => gspostbox::state_of(s),
        CourierType::Chunil => chunil::state_of(s),
        CourierType::Daesin => daesin::state_of(s),
        CourierType::IlyangLogis => ilyanglogis::state_of(s),
        CourierType::Kyoungdong => kyoungdong::state_of(s),
        CourierType::Warpex => warpex::state_of(s),
        CourierType::Fedex => fedex::state_of(s),
        CourierType::Cainiao => cainiao::state_of(s),
    }
}

impl CourierType {
    pub fn id(self) -> (r: &'static str)
        ensures
            r@ == id_of(self),
    {
        match self {
            CourierType::Cjlogistics => cjlogistics::Cjlogistics::id(),
            CourierType::Epost => epost::Epost::id(),
            CourierType::EpostEMS => epostems::EpostEMS::id(),
            CourierType::Hanjin => hanjin::Hanjin::id(),
            CourierType::Logen => logen::Logen::id(),
            CourierType::Lotte => lotte::Lotte::id(),
            CourierType::Cupost => cupost::Cupost::id(),
            CourierType::Gspostbox => gspostbox::Gspostbox::id(),
            CourierType::Chunil => chunil::Chunil::id(),
            CourierType::Daesin => daesin::Daesin::id(),
            CourierType::IlyangLogis => ilyanglogis::IlyangLogis::id(),
            CourierType::Kyoungdong => kyoungdong::Kyoungdong::id(),
            CourierType::Warpex => warpex::Warpex::id(),
            CourierType::Fedex => fedex::Fedex::id(),
            CourierType::Cainiao => cainiao::Cainiao::id(),
        }
    }

    pub fn name(self) -> (r: &'static str)
        ensures
            r@ == name_of(self),
    {
        match self {
            CourierType::Cjlogistics => cjlogistics::Cjlogistics::name(),
            CourierType::Epost => epost::Epost::name(),
            CourierType::EpostEMS => epostems::EpostEMS::name(),
            CourierType::Hanjin => hanjin::Hanjin::name(),
            CourierType::Logen => logen::Logen::name(),
            CourierType::Lotte => lotte::Lotte::name(),
            CourierType::Cupost => cupost::Cupost::name(),
            CourierType::Gspostbox => gspostbox::Gspostbox::name(),
            CourierType::Chunil => chunil::Chunil::name(),
            CourierType::Daesin => daesin::Daesin::name(),
            CourierType::IlyangLogis => ilyanglogis::IlyangLogis::name(),
            CourierType::Kyoungdong => kyoungdong::Kyoungdong::name(),
            CourierType::Warpex => warpex::Warpex::name(),
            CourierType::Fedex => fedex::Fedex::name(),
            CourierType::Cainiao => cainiao::Cainiao::name(),
        }
    }

    pub fn hint(self) -> (r: &'static str)
        ensures
            r@ == hint_of(self),
    {
        match self {
            CourierType::Cjlogistics => cjlogistics::Cjlogistics::hint(),
            CourierType::Epost => epost::Epost::hint(),
            CourierType::EpostEMS => epostems::EpostEMS::hint(),
            CourierType::Hanjin => hanjin::Hanjin::hint(),
            CourierType::Logen => logen::Logen::hint(),
            CourierType::Lotte => lotte::Lotte::hint(),
            CourierType::Cupost => cupost::Cupost::hint(),
            CourierType::Gspostbox => gspostbox::Gspostbox::hint(),
            CourierType::Chunil => chunil::Chunil::hint(),
            CourierType::Daesin => daesin::Daesin::hint(),
            CourierType::IlyangLogis => ilyanglogis::IlyangLogis::hint(),
            CourierType::Kyoungdong => kyoungdong::Kyoungdong::hint(),
            CourierType::Warpex => warpex::Warpex::hint(),
            CourierType::Fedex => fedex::Fedex::hint(),
            CourierType::Cainiao => cainiao::Cainiao::hint(),
        }
    }

    /// Whether `tracking_number` has this courier's format. Reads nothing but the number.
    pub fn validate(self, tracking_number: &str) -> (r: bool)
        ensures
            r == valid_for(self, tracking_number@),
    {
        match self {
            CourierType::Cjlogistics => cjlogistics::Cjlogistics::validate(tracking_number),
            CourierType::Epost => epost::Epost::validate(tracking_number),
            CourierType::EpostEMS => epostems::EpostEMS::validate(tracking_number),
            CourierType::Hanjin => hanjin::Hanjin::validate(tracking_number),
            CourierType::Logen => logen::Logen::validate(tracking_number),
            CourierType::Lotte => lotte::Lotte::validate(tracking_number),
            CourierType::Cupost => cupost::Cupost::validate(tracking_number),
            CourierType::Gspostbox => gspostbox::Gspostbox::validate(tracking_number),
            CourierType::Chunil => chunil::Chunil::validate(tracking_number),
            CourierType::Daesin => daesin::Daesin::validate(tracking_number),
            CourierType::IlyangLogis => ilyanglogis::IlyangLogis::validate(tracking_number),
            CourierType::Kyoungdong => kyoungdong::Kyoungdong::validate(tracking_number),
            CourierType::Warpex => warpex::Warpex::validate(tracking_number),
            CourierType::Fedex => fedex::Fedex::validate(tracking_number),
            CourierType::Cainiao => cainiao::Cainiao::validate(tracking_number),
        }
    }
}

/// The events of one row of a courier's HTML table; `None` where it cannot be read.
pub open spec fn html_row_events(c: CourierType, row: Seq<Seq<char>>) -> Option<Seq<EventView>> {
    match c {
        CourierType::EpostEMS => epostems::row_events(row),
        CourierType::Chunil => chunil::row_events(row),
        CourierType::Cupost => cupost::row_events(row),
        CourierType::Warpex => warpex::row_events(row),
        CourierType::Lotte => lotte::row_events(row),
        CourierType::Logen => logen::row_events(row),
        CourierType::IlyangLogis => ilyanglogis::row_events(row),
        CourierType::Hanjin => hanjin::row_events(row),
        CourierType::Epost => epost::row_events(row),
        CourierType::Daesin => daesin::row_events(row),
        _ => None,
    }
}

/// The events of one element of a courier's JSON event list; `None` where it cannot be read.
pub open spec fn json_row_events(c: CourierType, ctx: Seq<char>, row: Seq<Option<Seq<char>>>) -> Option<
    Seq<EventView>,
> {
    match c {
        CourierType::Cjlogistics => cjlogistics::row_events(ctx, row),
        CourierType::Gspostbox => gspostbox::row_events(row),
        CourierType::Kyoungdong => kyoungdong::row_events(row),
        CourierType::Fedex => fedex::row_events(row),
        CourierType::Cainiao => cainiao::row_events(row),
        _ => None,
    }
}

pub fn html_row(c: CourierType, row: &Vec<String>) -> (r: Option<Vec<TrackingStatus>>)
    ensures
        opt_events(r) == html_row_events(c, texts_view(row@)),
{
    match c {
        CourierType::EpostEMS => epostems::EpostEMS::row(row),
        CourierType::Chunil => chunil::Chunil::row(row),
        CourierType::Cupost => cupost::Cupost::row(row),
        CourierType::Warpex => warpex::Warpex::row(row),
        CourierType::Lotte => lotte::Lotte::row(row),
        CourierType::Logen => logen::Logen::row(row),
        CourierType::IlyangLogis => ilyanglogis::IlyangLogis::row(row),
        CourierType::Hanjin => hanjin::Hanjin::row(row),
        CourierType::Epost => epost::Epost::row(row),
        CourierType::Daesin => daesin::Daesin::row(row),
        _ => None,
    }
}

pub fn json_row(c: CourierType, ctx: &str, row: &Vec<Option<String>>) -> (r: Option<Vec<TrackingStatus>>)
    ensures
        opt_events(r) == json_row_events(c, ctx@, crate::json::opt_row_view(row@)),
{
    match c {
        CourierType::Cjlogistics => cjlogistics::Cjlogistics::row(ctx, row),
        CourierType::Gspostbox => gspostbox::Gspostbox::row(row),
        CourierType::Kyoungdong => kyoungdong::Kyoungdong::row(row),
        CourierType::Fedex => fedex::Fedex::row(row),
        CourierType::Cainiao => cainiao::Cainiao::row(row),
        _ => None,
    }
}

/// A list of one event.
pub fn single(e: TrackingStatus) -> (r: Vec<TrackingStatus>)
    ensures
        events_view(r@) == seq![e@],
{
    let mut v: Vec<TrackingStatus> = Vec::new();
    v.push(e);
    proof {
        assert(events_view(v@) =~= seq![e@]);
    }
    v
}

pub fn selectors2(s0: &'static str, s1: &'static str) -> (r: Vec<&'static str>)
    ensures
        selectors_view(r@) == seq![s0@, s1@],
{
    let mut v: Vec<&'static str> = Vec::new();
    v.push(s0);
    v.push(s1);
    proof {
        assert(selectors_view(v@) =~= seq![s0@, s1@]);
    }
    v
}

pub fn selectors3(s0: &'static str, s1: &'static str, s2: &'static str) -> (r: Vec<&'static str>)
    ensures
        selectors_view(r@) == seq![s0@, s1@, s2@],
{
    let mut v: Vec<&'static str> = Vec::new();
    v.push(s0);
    v.push(s1);
    v.push(s2);
    proof {
        assert(selectors_view(v@) =~= seq![s0@, s1@, s2@]);
    }
    v
}

pub fn selectors4(s0: &'static str, s1: &'static str, s2: &'static str, s3: &'static str) -> (r: Vec<&'static str>)
    ensures
        selectors_view(r@) == seq![s0@, s1@, s2@, s3@],
{
    let mut v: Vec<&'static str> = Vec::new();
    v.push(s0);
    v.push(s1);
    v.push(s2);
    v.push(s3);
    proof {
        assert(selectors_view(v@) =~= seq![s0@, s1@, s2@, s3@]);
    }
    v
}

pub fn selectors5(s0: &'static str, s1: &'static str, s2: &'static str, s3: &'static str, s4: &'static str) -> (r: Vec<&'static str>)
    ensures
        selectors_view(r@) == seq![s0@, s1@, s2@, s3@, s4@],
{
    let mut v: Vec<&'static str> = Vec::new();
    v.push(s0);
    v.push(s1);
    v.push(s2);
    v.push(s3);
    v.push(s4);
    proof {
        assert(selectors_view(v@) =~= seq![s0@, s1@, s2@, s3@, s4@]);
    }
    v
}

pub fn selectors6(s0: &'static str, s1: &'static str, s2: &'static str, s3: &'static str, s4: &'static str, s5: &'static str) -> (r: Vec<&'static str>)
    ensures
        selectors_view(r@) == seq![s0@, s1@, s2@, s3@, s4@, s5@],
{
    let mut v: Vec<&'static str> = Vec::new();
    v.push(s0);
    v.push(s1);
    v.push(s2);
    v.push(s3);
    v.push(s4);
    v.push(s5);
    proof {
        assert(selectors_view(v@) =~= seq![s0@, s1@, s2@, s3@, s4@, s5@]);
    }
    v
}

impl StateType {
    /// Classifies a status text of `courier` into a lifecycle stage. Total:
    /// text that none of the courier's rules recognizes gives `Unknown`.
    pub fn to_type(courier: CourierType, status: &str) -> (r: StateType)
        ensures
            r == classify(courier, status@),
    {
        match courier {
            CourierType::Cjlogistics => cjlogistics::Cjlogistics::state_from(status),
            CourierType::Epost => epost::Epost::state_from(status),
            CourierType::EpostEMS => epostems::EpostEMS::state_from(status),
            CourierType::Hanjin => hanjin::Hanjin::state_from(status),
            CourierType::Logen => logen::Logen::state_from(status),
            CourierType::Lotte => lotte::Lotte::state_from(status),
            CourierType::Cupost => cupost::Cupost::state_from(status),
            CourierType::Gspostbox => gspostbox::Gspostbox::state_from(status),
            CourierType::Chunil => chunil::Chunil::state_from(status),
            CourierType::Daesin => daesin::Daesin::state_from(status),
            CourierType::IlyangLogis => ilyanglogis::IlyangLogis::state_from(status),
            CourierType::Kyoungdong => kyoungdong::Kyoungdong::state_from(status),
            CourierType::Warpex => warpex::Warpex::state_from(status),
            CourierType::Fedex => fedex::Fedex::state_from(status),
            CourierType::Cainiao => cainiao::Cainiao::state_from(status),
        }
    }
}

} // verus!
