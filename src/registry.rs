//! The registry: which couriers there are, in the order they are offered.
use vstd::prelude::*;
use crate::couriers::{CourierType, id_of, name_of, valid_for};
use crate::text::same_text;

verus! {

/// Every supported courier, in registration order.
pub open spec fn registered() -> Seq<CourierType> {
    seq![
        CourierType::Cjlogistics,
        CourierType::Epost,
        CourierType::EpostEMS,
        CourierType::Hanjin,
        CourierType::Logen,
        CourierType::Lotte,
        CourierType::Cupost,
        CourierType::Gspostbox,
        CourierType::Chunil,
        CourierType::Daesin,
        CourierType::IlyangLogis,
        CourierType::Kyoungdong,
        CourierType::Warpex,
        CourierType::Fedex,
        CourierType::Cainiao,
    ]
}

/// The courier registered under `id`.
pub open spec fn courier_of(id: Seq<char>) -> Option<CourierType> {
    if id == "kr.cjlogistics"@ {
        Some(CourierType::Cjlogistics)
    } else if id == "kr.epost"@ {
        Some(CourierType::Epost)
    } else if id == "kr.epostems"@ {
        Some(CourierType::EpostEMS)
    } else if id == "kr.hanjin"@ {
        Some(CourierType::Hanjin)
    } else if id == "kr.logen"@ {
        Some(CourierType::Logen)
    } else if id == "kr.lotte"@ {
        Some(CourierType::Lotte)
    } else if id == "kr.cupost"@ {
        Some(CourierType::Cupost)
    } else if id == "kr.gspostbox"@ {
        Some(CourierType::Gspostbox)
    } else if id == "kr.chunil"@ {
        Some(CourierType::Chunil)
    } else if id == "kr.daesin"@ {
        Some(CourierType::Daesin)
    } else if id == "kr.ilyanglogis"@ {
        Some(CourierType::IlyangLogis)
    } else if id == "kr.kyoungdong"@ {
        Some(CourierType::Kyoungdong)
    } else if id == "us.warpex"@ {
        Some(CourierType::Warpex)
    } else if id == "us.fedex"@ {
        Some(CourierType::Fedex)
    } else if id == "cn.cainiao"@ {
        Some(CourierType::Cainiao)
    } else {
        None
    }
}

/// A courier's identity, as discovery and candidate lists show it.
#[derive(Clone, Debug)]
pub struct Courier {
    pub id: String,
    pub name: String,
}

impl View for Courier {
    type V = (Seq<char>, Seq<char>);

    open spec fn view(&self) -> (Seq<char>, Seq<char>) {
        (self.id@, self.name@)
    }
}

pub open spec fn identity(c: CourierType) -> (Seq<char>, Seq<char>) {
    (id_of(c), name_of(c))
}

pub open spec fn identities(v: Seq<Courier>) -> Seq<(Seq<char>, Seq<char>)> {
    v.map_values(|c: Courier| c@)
}

/// The identities of all registered couriers, in order.
pub open spec fn all_identities() -> Seq<(Seq<char>, Seq<char>)> {
    registered().map_values(|c: CourierType| identity(c))
}

/// The identities of the registered couriers whose format `number` has, in order.
pub open spec fn candidate_identities(number: Seq<char>) -> Seq<(Seq<char>, Seq<char>)> {
    registered().filter(|c: CourierType| valid_for(c, number)).map_values(
        |c: CourierType| identity(c),
    )
}

impl CourierType {
    /// The courier registered under `id`, if any.
    pub fn get_courier(id: &str) -> (r: Option<CourierType>)
        ensures
            r == courier_of(id@),
    {
        if same_text(id, "kr.cjlogistics") {
            Some(CourierType::Cjlogistics)
        } else if same_text(id, "kr.epost") {
            Some(CourierType::Epost)
        } else if same_text(id, "kr.epostems") {
            Some(CourierType::EpostEMS)
        } else if same_text(id, "kr.hanjin") {
            Some(CourierType::Hanjin)
        } else if same_text(id, "kr.logen") {
            Some(CourierType::Logen)
        } else if same_text(id, "kr.lotte") {
            Some(CourierType::Lotte)
        } else if same_text(id, "kr.cupost") {
            Some(CourierType::Cupost)
        } else if same_text(id, "kr.gspostbox") {
            Some(CourierType::Gspostbox)
        } else if same_text(id, "kr.chunil") {
            Some(CourierType::Chunil)
        } else if same_text(id, "kr.daesin") {
            Some(CourierType::Daesin)
        } else if same_text(id, "kr.ilyanglogis") {
            Some(CourierType::IlyangLogis)
        } else if same_text(id, "kr.kyoungdong") {
            Some(CourierType::Kyoungdong)
        } else if same_text(id, "us.warpex") {
            Some(CourierType::Warpex)
        } else if same_text(id, "us.fedex") {
            Some(CourierType::Fedex)
        } else if same_text(id, "cn.cainiao") {
            Some(CourierType::Cainiao)
        } else {
            None
        }
    }
}

impl Courier {
    pub fn of(c: CourierType) -> (r: Courier)
        ensures
            r@ == identity(c),
    {
        Courier { id: c.id().to_string(), name: c.name().to_string() }
    }
}

/// The engine's registry, assembled once at start and handed to each consumer.
pub struct DeliveryTracker {
    couriers: Vec<CourierType>,
}

impl DeliveryTracker {
    #[verifier::type_invariant]
    spec fn complete(self) -> bool {
        self.couriers@ == registered()
    }

    /// The couriers, in registration order.
    pub closed spec fn couriers(self) -> Seq<CourierType> {
        self.couriers@
    }

    pub fn new() -> (r: DeliveryTracker)
        ensures
            r.couriers() == registered(),
    {
        let mut v: Vec<CourierType> = Vec::new();
        v.push(CourierType::Cjlogistics);
        v.push(CourierType::Epost);
        v.push(CourierType::EpostEMS);
        v.push(CourierType::Hanjin);
        v.push(CourierType::Logen);
        v.push(CourierType::Lotte);
        v.push(CourierType::Cupost);
        v.push(CourierType::Gspostbox);
        v.push(CourierType::Chunil);
        v.push(CourierType::Daesin);
        v.push(CourierType::IlyangLogis);
        v.push(CourierType::Kyoungdong);
        v.push(CourierType::Warpex);
        v.push(CourierType::Fedex);
        v.push(CourierType::Cainiao);
        proof {
            assert(v@ =~= registered());
        }
        DeliveryTracker { couriers: v }
    }

    /// Every registered courier's identity, in registration order.
    pub fn list_all(&self) -> (r: Vec<Courier>)
        ensures
            identities(r@) == all_identities(),
    {
        proof {
            use_type_invariant(self);
        }
        let n = self.couriers.len();
        let mut r: Vec<Courier> = Vec::new();
        let mut i: usize = 0;
        while i < n
            invariant
                n == self.couriers@.len(),
                self.couriers@ == registered(),
                i <= n,
                identities(r@) == registered().subrange(0, i as int).map_values(
                    |c: CourierType| identity(c),
                ),
            decreases n - i,
        {
            let ghost old_r = r@;
            let item = Courier::of(self.couriers[i]);
            r.push(item);
            proof {
                assert(identities(r@) =~= identities(old_r).push(item@));
                assert(registered().subrange(0, i + 1).map_values(|c: CourierType| identity(c))
                    =~= registered().subrange(0, i as int).map_values(|c: CourierType| identity(c)).push(
                    identity(self.couriers@[i as int]),
                ));
                assert(identities(r@) =~= registered().subrange(0, i + 1).map_values(
                    |c: CourierType| identity(c),
                ));
            }
            i = i + 1;
        }
        proof {
            assert(registered().subrange(0, n as int) =~= registered());
        }
        r
    }

    /// The identities of the couriers whose format `tracking_number` has, in
    /// registration order. Reads nothing but the number.
    pub fn get_support_couriers(&self, tracking_number: &str) -> (r: Vec<Courier>)
        ensures
            identities(r@) == candidate_identities(tracking_number@),
    {
        proof {
            use_type_invariant(self);
        }
        let ghost pred = |c: CourierType| valid_for(c, tracking_number@);
        let n = self.couriers.len();
        let mut r: Vec<Courier> = Vec::new();
        let mut i: usize = 0;
        while i < n
            invariant
                n == self.couriers@.len(),
                self.couriers@ == registered(),
                i <= n,
                pred == (|c: CourierType| valid_for(c, tracking_number@)),
                identities(r@) == registered().subrange(0, i as int).filter(pred).map_values(
                    |c: CourierType| identity(c),
                ),
            decreases n - i,
        {
            let c = self.couriers[i];
            proof {
                let part = registered().subrange(0, i + 1);
                assert(part.drop_last() =~= registered().subrange(0, i as int));
                assert(part.last() == c);
            }
            let ghost old_r = r@;
            proof {
                reveal(Seq::filter);
            }
            if c.validate(tracking_number) {
                let item = Courier::of(c);
                r.push(item);
                proof {
                    assert(identities(r@) =~= identities(old_r).push(item@));
                    let part = registered().subrange(0, i + 1);
                    assert(part.filter(pred) == part.drop_last().filter(pred).push(c));
                    assert(part.filter(pred).map_values(|c: CourierType| identity(c))
                        =~= part.drop_last().filter(pred).map_values(|c: CourierType| identity(c)).push(
                        identity(c),
                    ));
                }
            } else {
                proof {
                    let part = registered().subrange(0, i + 1);
                    assert(part.filter(pred) == part.drop_last().filter(pred));
                }
            }
            proof {
                assert(identities(r@) =~= registered().subrange(0, i + 1).filter(pred).map_values(
                    |c: CourierType| identity(c),
                ));
            }
            i = i + 1;
        }
        proof {
            assert(registered().subrange(0, n as int) =~= registered());
        }
        r
    }
}

} // verus!
