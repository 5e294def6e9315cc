//! The LIFX bulbs of the local network: what is known of each, and the
//! messages that discover them, refresh what is known of them and set the
//! brightness of a group of them.
use vstd::prelude::*;
use vstd::string::*;

pub mod codec;

verus! {

/// Hue, saturation, brightness and kelvin of a bulb's color.
#[derive(Clone, Copy, Debug, PartialEq, Eq, Structural)]
pub struct Hsbk {
    pub hue: u16,
    pub saturation: u16,
    pub brightness: u16,
    pub kelvin: u16,
}

#[derive(Clone, Copy, Debug, PartialEq, Eq, Structural)]
pub enum PowerLevel {
    Standby,
    Enabled,
}

/// The power level that the protocol value `level` stands for.
pub open spec fn power_level_of(level: u16) -> Option<PowerLevel> {
    if level == 65535 {
        Some(PowerLevel::Enabled)
    } else if level == 0 {
        Some(PowerLevel::Standby)
    } else {
        None
    }
}

/// `lifx_core::PowerLevel::try_from`: 65535 is enabled, 0 is standby, and
/// any other value is refused.
#[verifier::external_body]
fn power_level_try_from(level: u16) -> (r: Option<PowerLevel>)
    ensures
        r == power_level_of(level),
{
    match lifx_core::PowerLevel::try_from(level) {
        Ok(lifx_core::PowerLevel::Enabled) => Some(PowerLevel::Enabled),
        Ok(lifx_core::PowerLevel::Standby) => Some(PowerLevel::Standby),
        Err(_) => None,
    }
}

/// Whether the product `(vendor, product)` is a multizone light, according
/// to the product table of `lifx_core` (`None` for an unknown product).
pub uninterp spec fn lifx_product_multizone(vendor: u32, product: u32) -> Option<bool>;

/// `lifx_core::get_product_info`, of which only `multizone` is kept.
#[verifier::external_body]
fn product_multizone(vendor: u32, product: u32) -> (r: Option<bool>)
    ensures
        r == lifx_product_multizone(vendor, product),
{
    lifx_core::get_product_info(vendor, product).map(|info| info.multizone)
}

#[derive(Clone, Debug)]
pub enum Color {
    Unknown,
    /// Regular bulb
    Single(Option<Hsbk>),
    /// strip, beam and candles
    Multi(Option<Vec<Option<Hsbk>>>),
}

/// What is known of a bulb; `A` is its network address and `T` an instant.
#[derive(Debug)]
pub struct BulbInfo<A, T> {
    pub last_seen: T,
    pub source: u32,
    pub target: u64,
    pub address: A,
    /// The port of `address`.
    pub port: u16,
    pub name: Option<String>,
    pub location: Option<String>,
    pub group: Option<String>,
    pub power_level: Option<PowerLevel>,
    pub color: Color,
}

/// A message of the LIFX protocol, with the fields this controller reads.
#[derive(Clone, Debug)]
pub enum LifxMessage {
    GetService,
    StateService { service: u8, port: u32 },
    GetPower,
    SetPower { level: PowerLevel },
    GetLabel,
    GetVersion,
    GetLocation,
    GetGroup,
    LightGet,
    LightSetColor { reserved: u8, color: Hsbk, duration: u32 },
    StateVersion { vendor: u32, product: u32 },
    StateLabel { label: String },
    StateLocation { label: String },
    StateGroup { label: String },
    LightState { color: Hsbk, power: u16, label: String },
    StatePower { level: u16 },
    /// Any other message of the protocol.
    Unsupported,
}

/// Whether `m` is one of the messages a bulb sends about its state.
pub open spec fn is_bulb_state(m: LifxMessage) -> bool {
    ||| m is StateService
    ||| m is StateVersion
    ||| m is StateLabel
    ||| m is StateLocation
    ||| m is StateGroup
    ||| m is LightState
    ||| m is StatePower
}

/// What came of a message from a bulb.
#[derive(Clone, Copy, Debug, PartialEq, Eq, Structural)]
pub enum Handled {
    /// The bulb's information is up to date.
    Updated,
    /// The bulb offers a service on another port than the one it talks from.
    UnsupportedService { service: u8, port: u32 },
    /// The message is not one the table reads.
    Unsupported,
}

/// What is known of bulb `b` after it sent `m`.
pub open spec fn bulb_after<A, T>(b: BulbInfo<A, T>, m: LifxMessage) -> BulbInfo<A, T> {
    match m {
        LifxMessage::StateVersion { vendor, product } => match lifx_product_multizone(
            vendor,
            product,
        ) {
            Some(true) => BulbInfo { color: Color::Multi(None), ..b },
            Some(false) => BulbInfo { color: Color::Single(None), ..b },
            None => b,
        },
        LifxMessage::StateLabel { label } => BulbInfo { name: Some(label), ..b },
        LifxMessage::StateLocation { label } => BulbInfo { location: Some(label), ..b },
        LifxMessage::StateGroup { label } => BulbInfo { group: Some(label), ..b },
        LifxMessage::LightState { color, power, label } => {
            let b2 = if b.color is Single {
                BulbInfo {
                    color: Color::Single(Some(color)),
                    power_level: power_level_of(power),
                    ..b
                }
            } else {
                b
            };
            BulbInfo { name: Some(label), ..b2 }
        },
        LifxMessage::StatePower { level } => BulbInfo { power_level: power_level_of(level), ..b },
        _ => b,
    }
}

/// What the table reports of bulb `b` sending `m`.
pub open spec fn handled_of<A, T>(b: BulbInfo<A, T>, m: LifxMessage) -> Handled {
    match m {
        LifxMessage::StateService { service, port } => if port != b.port as u32 {
            Handled::UnsupportedService { service, port }
        } else {
            Handled::Updated
        },
        _ => if is_bulb_state(m) {
            Handled::Updated
        } else {
            Handled::Unsupported
        },
    }
}

impl<A, T> BulbInfo<A, T> {
    /// A bulb just seen at `address` (of port `port`), of which nothing else is known.
    pub fn new(source: u32, target: u64, address: A, port: u16, now: T) -> (r: BulbInfo<A, T>)
        ensures
            r == (BulbInfo {
                last_seen: now,
                source,
                target,
                address,
                port,
                name: None,
                location: None,
                group: None,
                power_level: None,
                color: Color::Unknown,
            }),
    {
        BulbInfo {
            last_seen: now,
            source,
            target,
            address,
            port,
            name: None,
            location: None,
            group: None,
            power_level: None,
            color: Color::Unknown,
        }
    }

    /// The options of a message to this bulb, which asks for a response.
    pub fn build_options(&self) -> (r: SendOptions)
        ensures
            r == bulb_options(*self),
    {
        SendOptions { target: Some(self.target), ack_required: false, res_required: true, sequence: 0, source: self.source }
    }

    /// The bulb was just seen again, at `address`.
    pub fn update(&mut self, address: A, port: u16, now: T)
        ensures
            *final(self) == (BulbInfo { last_seen: now, address, port, ..*old(self) }),
    {
        self.last_seen = now;
        self.address = address;
        self.port = port;
    }

    /// Reads a message from the bulb into what is known of it.
    pub fn handle_message(&mut self, message: LifxMessage) -> (r: Handled)
        ensures
            *final(self) == bulb_after(*old(self), message),
            r == handled_of(*old(self), message),
    {
        match message {
            LifxMessage::StateService { service, port } => {
                if port != self.port as u32 {
                    Handled::UnsupportedService { service, port }
                } else {
                    Handled::Updated
                }
            },
            LifxMessage::StateVersion { vendor, product } => {
                match product_multizone(vendor, product) {
                    Some(true) => self.color = Color::Multi(None),
                    Some(false) => self.color = Color::Single(None),
                    None => {},
                }
                Handled::Updated
            },
            LifxMessage::StateLabel { label } => {
                self.name = Some(label);
                Handled::Updated
            },
            LifxMessage::StateLocation { label } => {
                self.location = Some(label);
                Handled::Updated
            },
            LifxMessage::StateGroup { label } => {
                self.group = Some(label);
                Handled::Updated
            },
            LifxMessage::LightState { color, power, label } => {
                if let Color::Single(_) = self.color {
                    self.color = Color::Single(Some(color));
                    self.power_level = power_level_try_from(power);
                }
                self.name = Some(label);
                Handled::Updated
            },
            LifxMessage::StatePower { level } => {
                self.power_level = power_level_try_from(level);
                Handled::Updated
            },
            _ => Handled::Unsupported,
        }
    }
}

/// The options of a message: the bulb addressed (all bulbs when `None`),
/// whether an acknowledgement and a response are required, a wrapping
/// sequence number and the client's source identifier.
#[derive(Clone, Copy, Debug, PartialEq, Eq, Structural)]
pub struct SendOptions {
    pub target: Option<u64>,
    pub ack_required: bool,
    pub res_required: bool,
    pub sequence: u8,
    pub source: u32,
}

/// The options of a message to bulb `b`, which asks for a response.
pub open spec fn bulb_options<A, T>(b: BulbInfo<A, T>) -> SendOptions {
    SendOptions {
        target: Some(b.target),
        ack_required: false,
        res_required: true,
        sequence: 0,
        source: b.source,
    }
}

/// A message sent to bulbs.
#[derive(Clone, Copy, Debug, PartialEq, Eq, Structural)]
pub enum Request {
    GetService,
    GetLabel,
    GetLocation,
    GetGroup,
    GetVersion,
    GetPower,
    LightGet,
    LightSetColor { reserved: u8, color: Hsbk, duration: u32 },
    SetPower { level: PowerLevel },
}

/// A message to send to `address`.
#[derive(Clone, Copy, Debug)]
pub struct Outgoing<A> {
    pub options: SendOptions,
    pub request: Request,
    pub address: A,
}

/// What the manager is asked to do.
#[derive(Clone, Copy, Debug, PartialEq, Eq, Structural)]
pub enum Management {
    Discover,
    Refresh,
}

#[derive(Clone, Debug)]
pub enum Command {
    SetGroupBrightness { group: String, brightness: u16 },
}

/// The handle of the LIFX machinery.
pub struct LifxHandle {}

/// The source identifier this client puts in its messages.
pub const SOURCE: u32 = 0x72757374;

/// The UDP port of the LIFX protocol.
pub const LIFX_PORT: u16 = 56700;

/// How often what is known of every bulb is refreshed, in seconds.
pub const REFRESH_PERIOD_SECS: u64 = 9;

/// The message `request` to bulb `b`, asking for a response.
pub open spec fn request_to<A, T>(b: BulbInfo<A, T>, request: Request) -> Outgoing<A> {
    Outgoing { options: bulb_options(b), request, address: b.address }
}

/// The messages a refresh sends to every bulb, in order.
pub open spec fn refresh_requests() -> Seq<Request> {
    seq![
        Request::GetLabel,
        Request::GetLocation,
        Request::GetGroup,
        Request::GetVersion,
        Request::GetPower,
        Request::LightGet,
    ]
}

/// The power level a bulb at `level` goes to once its brightness is set to
/// `brightness`: a bulb stays on only at a brightness of at least 1000, so
/// a brightness under 1000 puts an enabled bulb in standby, and one of at
/// least 1000 enables a bulb in standby.
pub open spec fn power_change(level: Option<PowerLevel>, brightness: u16) -> Option<PowerLevel> {
    match level {
        Some(PowerLevel::Enabled) => if brightness < 1000 {
            Some(PowerLevel::Standby)
        } else {
            None
        },
        Some(PowerLevel::Standby) => if brightness >= 1000 {
            Some(PowerLevel::Enabled)
        } else {
            None
        },
        None => None,
    }
}

fn power_change_of(level: Option<PowerLevel>, brightness: u16) -> (r: Option<PowerLevel>)
    ensures
        r == power_change(level, brightness),
{
    match level {
        Some(PowerLevel::Enabled) => if brightness < 1000 {
            Some(PowerLevel::Standby)
        } else {
            None
        },
        Some(PowerLevel::Standby) => if brightness >= 1000 {
            Some(PowerLevel::Enabled)
        } else {
            None
        },
        None => None,
    }
}

/// Whether bulb `b` belongs to the group `group` and has a known single color.
pub open spec fn in_group<A, T>(b: BulbInfo<A, T>, group: Seq<char>) -> bool {
    &&& b.group matches Some(g) && g@ == group
    &&& b.color matches Color::Single(Some(_))
}

/// The messages that set the brightness of bulb `b` to `brightness`: its
/// color with the new brightness, then the power change, if any.
pub open spec fn brightness_messages<A, T>(b: BulbInfo<A, T>, brightness: u16) -> Seq<Outgoing<A>> {
    let options = SendOptions { target: Some(b.target), ack_required: false, res_required: true, sequence: 0, source: b.source };
    let color = match b.color {
        Color::Single(Some(c)) => c,
        _ => Hsbk { hue: 0, saturation: 0, brightness: 0, kelvin: 0 },
    };
    let set_color = Outgoing {
        options,
        request: Request::LightSetColor { reserved: 0, color: Hsbk { brightness, ..color }, duration: 5 },
        address: b.address,
    };
    match power_change(b.power_level, brightness) {
        Some(level) => seq![
            set_color,
            Outgoing { options, request: Request::SetPower { level }, address: b.address },
        ],
        None => seq![set_color],
    }
}

/// The messages of `brightness_messages` for each bulb of `bulbs` in the group.
pub open spec fn group_brightness_messages<A, T>(
    bulbs: Seq<BulbInfo<A, T>>,
    group: Seq<char>,
    brightness: u16,
) -> Seq<Outgoing<A>>
    decreases bulbs.len(),
{
    if bulbs.len() == 0 {
        Seq::empty()
    } else {
        let rest = group_brightness_messages(bulbs.drop_last(), group, brightness);
        if in_group(bulbs.last(), group) {
            rest + brightness_messages(bulbs.last(), brightness)
        } else {
            rest
        }
    }
}

/// The LIFX manager: what is known of the bulbs of the network, by
/// target, the address that discovery broadcasts to, and the source
/// identifier of its messages.
pub struct Manager<A, T> {
    bulbs: Vec<BulbInfo<A, T>>,
    broadcast_addr: A,
    source: u32,
}

impl<A: Copy, T: Copy> Manager<A, T> {
    /// The known bulbs, in the order they were first seen.
    pub closed spec fn bulbs(&self) -> Seq<BulbInfo<A, T>> {
        self.bulbs@
    }

    /// The known bulbs, by target.
    pub closed spec fn view(&self) -> Map<u64, BulbInfo<A, T>> {
        Map::new(
            |t: u64| exists|i: int| 0 <= i < self.bulbs@.len() && self.bulbs@[i].target == t,
            |t: u64| self.bulbs@[choose|i: int| 0 <= i < self.bulbs@.len() && self.bulbs@[i].target == t],
        )
    }

    pub closed spec fn wf(&self) -> bool {
        forall|i: int, j: int|
            0 <= i < j < self.bulbs@.len() ==> self.bulbs@[i].target != self.bulbs@[j].target
    }

    pub closed spec fn broadcast_addr(&self) -> A {
        self.broadcast_addr
    }

    pub closed spec fn source(&self) -> u32 {
        self.source
    }

    /// No bulb known yet; discovery broadcasts to `broadcast_addr`.
    pub fn new(broadcast_addr: A) -> (r: Self)
        ensures
            r.wf(),
            r@ == Map::<u64, BulbInfo<A, T>>::empty(),
            r.bulbs().len() == 0,
            r.broadcast_addr() == broadcast_addr,
            r.source() == SOURCE,
    {
        let r = Manager { bulbs: Vec::new(), broadcast_addr, source: SOURCE };
        assert(r@ =~= Map::<u64, BulbInfo<A, T>>::empty());
        r
    }

    /// The message that asks every bulb of the network to make itself known.
    pub fn discovery(&self) -> (r: Outgoing<A>)
        ensures
            r == (Outgoing {
                options: SendOptions { target: None, ack_required: false, res_required: false, sequence: 0, source: self.source() },
                request: Request::GetService,
                address: self.broadcast_addr(),
            }),
    {
        Outgoing {
            options: SendOptions { target: None, ack_required: false, res_required: false, sequence: 0, source: self.source },
            request: Request::GetService,
            address: self.broadcast_addr,
        }
    }

    /// The messages that refresh what is known of every bulb: for each bulb
    /// in turn, the requests of `refresh_requests`.
    pub fn refresh(&self) -> (r: Vec<Outgoing<A>>)
        ensures
            r@.len() == self.bulbs().len() * 6,
            forall|i: int, k: int|
                0 <= i < self.bulbs().len() && 0 <= k < 6 ==> #[trigger] r@[i * 6 + k]
                    == request_to(self.bulbs()[i], refresh_requests()[k]),
    {
        let requests = [
            Request::GetLabel,
            Request::GetLocation,
            Request::GetGroup,
            Request::GetVersion,
            Request::GetPower,
            Request::LightGet,
        ];
        assert(requests@ == refresh_requests());
        let mut out: Vec<Outgoing<A>> = Vec::new();
        let mut i: usize = 0;
        while i < self.bulbs.len()
            invariant
                requests@ == refresh_requests(),
                i <= self.bulbs@.len(),
                out@.len() == i * 6,
                forall|j: int, k: int|
                    0 <= j < i && 0 <= k < 6 ==> #[trigger] out@[j * 6 + k] == request_to(
                        self.bulbs@[j],
                        refresh_requests()[k],
                    ),
            decreases self.bulbs@.len() - i,
        {
            let bulb = &self.bulbs[i];
            let mut k: usize = 0;
            while k < 6
                invariant
                    requests@ == refresh_requests(),
                    i < self.bulbs@.len(),
                    *bulb == self.bulbs@[i as int],
                    k <= 6,
                    out@.len() == i * 6 + k,
                    forall|j: int, l: int|
                        0 <= j < i && 0 <= l < 6 ==> #[trigger] out@[j * 6 + l] == request_to(
                            self.bulbs@[j],
                            refresh_requests()[l],
                        ),
                    forall|l: int|
                        0 <= l < k ==> #[trigger] out@[i * 6 + l] == request_to(
                            *bulb,
                            refresh_requests()[l],
                        ),
                decreases 6 - k,
            {
                let ghost prev = out@;
                out.push(
                    Outgoing {
                        options: bulb.build_options(),
                        request: requests[k],
                        address: bulb.address,
                    },
                );
                proof {
                    assert(out@[i * 6 + k as int] == out@.last());
                    assert forall|j: int, l: int| 0 <= j < i && 0 <= l < 6 implies #[trigger] out@[j
                        * 6 + l] == prev[j * 6 + l] by {
                        assert(j * 6 + l < i * 6) by (nonlinear_arith)
                            requires
                                0 <= j < i,
                                0 <= l < 6,
                        ;
                    }
                }
                k = k + 1;
            }
            proof {
                assert forall|j: int, l: int| 0 <= j < i + 1 && 0 <= l < 6 implies #[trigger] out@[j
                    * 6 + l] == request_to(self.bulbs@[j], refresh_requests()[l]) by {
                    if j == i {
                        assert(out@[i * 6 + l] == out@[j * 6 + l]);
                    }
                }
            }
            i = i + 1;
        }
        out
    }

    fn position(&self, target: u64) -> (r: Option<usize>)
        requires
            self.wf(),
        ensures
            match r {
                Some(i) => i < self.bulbs@.len() && self.bulbs@[i as int].target == target,
                None => !self@.contains_key(target),
            },
    {
        let mut i: usize = 0;
        while i < self.bulbs.len()
            invariant
                i <= self.bulbs@.len(),
                forall|j: int| 0 <= j < i ==> self.bulbs@[j].target != target,
            decreases self.bulbs@.len() - i,
        {
            if self.bulbs[i].target == target {
                return Some(i);
            }
            i = i + 1;
        }
        None
    }

    /// What is known of the bulb `target`, if it was ever seen.
    pub fn get(&self, target: u64) -> (r: Option<&BulbInfo<A, T>>)
        requires
            self.wf(),
        ensures
            match r {
                Some(b) => self@.contains_key(target) && *b == self@[target],
                None => !self@.contains_key(target),
            },
    {
        match self.position(target) {
            Some(i) => {
                proof {
                    let j = choose|j: int|
                        0 <= j < self.bulbs@.len() && self.bulbs@[j].target == target;
                    assert(j == i);
                }
                Some(&self.bulbs[i])
            },
            None => None,
        }
    }

    /// Reads a message that the bulb `target` sent from `address` (of port
    /// `port`) at `now`. A target of zero addresses every device (broadcast
    /// style); those messages are skipped. Otherwise the bulb is recorded as
    /// seen, then the message is read into what is known of it.
    pub fn receive(&mut self, target: u64, message: LifxMessage, address: A, port: u16, now: T) -> (r:
        Option<Handled>)
        requires
            old(self).wf(),
        ensures
            final(self).wf(),
            final(self).broadcast_addr() == old(self).broadcast_addr(),
            final(self).source() == old(self).source(),
            target == 0 ==> r is None && final(self)@ == old(self)@ && final(self).bulbs() == old(
                self,
            ).bulbs(),
            target != 0 ==> {
                let seen = if old(self)@.contains_key(target) {
                    BulbInfo { last_seen: now, address, port, ..old(self)@[target] }
                } else {
                    BulbInfo {
                        last_seen: now,
                        source: old(self).source(),
                        target,
                        address,
                        port,
                        name: None,
                        location: None,
                        group: None,
                        power_level: None,
                        color: Color::Unknown,
                    }
                };
                &&& r == Some(handled_of(seen, message))
                &&& final(self)@ == old(self)@.insert(target, bulb_after(seen, message))
                &&& if old(self)@.contains_key(target) {
                    exists|i: int|
                        #![trigger old(self).bulbs()[i]]
                        0 <= i < old(self).bulbs().len() && old(self).bulbs()[i].target == target
                            && final(self).bulbs() == old(self).bulbs().update(
                            i,
                            bulb_after(seen, message),
                        )
                } else {
                    final(self).bulbs() == old(self).bulbs().push(bulb_after(seen, message))
                }
            },
    {
        if target == 0 {
            return None;
        }
        let ghost bs = self.bulbs@;
        match self.position(target) {
            Some(i) => {
                proof {
                    let j = choose|j: int| 0 <= j < bs.len() && bs[j].target == target;
                    assert(j == i);
                }
                let vacant = BulbInfo::new(self.source, target, address, port, now);
                let mut bulb = vacant;
                self.bulbs.set_and_swap(i, &mut bulb);
                let ghost before = bulb;
                bulb.update(address, port, now);
                let h = bulb.handle_message(message);
                let ghost after = bulb;
                self.bulbs.set_and_swap(i, &mut bulb);
                proof {
                    assert(self.bulbs@ == bs.update(i as int, after));
                    lemma_bulbs_update(bs, i as int, after);
                    assert(old(self).bulbs()[i as int].target == target);
                    assert(self.bulbs() == old(self).bulbs().update(i as int, after));
                }
                Some(h)
            },
            None => {
                let mut bulb = BulbInfo::new(self.source, target, address, port, now);
                let h = bulb.handle_message(message);
                let ghost after = bulb;
                self.bulbs.push(bulb);
                proof {
                    lemma_bulbs_push(bs, after);
                }
                Some(h)
            },
        }
    }

    /// The bulbs of `group` with a known single color: target, source,
    /// color, power level and address, in the order the bulbs were first seen.
    pub fn get_group_colors(&self, group: &str) -> (r: Vec<(u64, u32, Hsbk, Option<PowerLevel>, A)>)
        ensures
            r@ == self.bulbs().filter(|b: BulbInfo<A, T>| in_group(b, group@)).map_values(
                |b: BulbInfo<A, T>|
                    (
                        b.target,
                        b.source,
                        match b.color {
                            Color::Single(Some(c)) => c,
                            _ => Hsbk { hue: 0, saturation: 0, brightness: 0, kelvin: 0 },
                        },
                        b.power_level,
                        b.address,
                    ),
            ),
    {
        let ghost f = |b: BulbInfo<A, T>| in_group(b, group@);
        let ghost g = |b: BulbInfo<A, T>|
            (
                b.target,
                b.source,
                match b.color {
                    Color::Single(Some(c)) => c,
                    _ => Hsbk { hue: 0, saturation: 0, brightness: 0, kelvin: 0 },
                },
                b.power_level,
                b.address,
            );
        let key = String::from_str(group);
        let mut out = Vec::new();
        let mut i: usize = 0;
        while i < self.bulbs.len()
            invariant
                key@ == group@,
                f == (|b: BulbInfo<A, T>| in_group(b, group@)),
                g == (|b: BulbInfo<A, T>|
                    (
                        b.target,
                        b.source,
                        match b.color {
                            Color::Single(Some(c)) => c,
                            _ => Hsbk { hue: 0, saturation: 0, brightness: 0, kelvin: 0 },
                        },
                        b.power_level,
                        b.address,
                    )),
                i <= self.bulbs@.len(),
                out@ == self.bulbs@.take(i as int).filter(f).map_values(g),
            decreases self.bulbs@.len() - i,
        {
            let bulb = &self.bulbs[i];
            proof {
                assert(self.bulbs@.take(i + 1).drop_last() =~= self.bulbs@.take(i as int));
                reveal_with_fuel(Seq::filter, 1);
            }
            let member = match &bulb.group {
                Some(g) => *g == key,
                None => false,
            };
            if member {
                if let Color::Single(Some(c)) = bulb.color {
                    out.push((bulb.target, bulb.source, c, bulb.power_level, bulb.address));
                    proof {
                        assert(f(*bulb));
                        assert(self.bulbs@.take(i + 1).filter(f) =~= self.bulbs@.take(
                            i as int,
                        ).filter(f).push(*bulb));
                    }
                }
            }
            assert(out@ =~= self.bulbs@.take(i + 1).filter(f).map_values(g));
            i = i + 1;
        }
        assert(self.bulbs@.take(self.bulbs@.len() as int) =~= self.bulbs@);
        out
    }

    /// The messages that set the brightness of every bulb of `group` (with
    /// a known single color) to `brightness`: for each bulb, its color with
    /// the new brightness, then a power change when the brightness crosses
    /// 1000 (see `power_change`).
    pub fn set_group_brightness(&self, group: &str, brightness: u16) -> (r: Vec<Outgoing<A>>)
        ensures
            r@ == group_brightness_messages(self.bulbs(), group@, brightness),
    {
        let key = String::from_str(group);
        let mut out = Vec::new();
        let mut i: usize = 0;
        while i < self.bulbs.len()
            invariant
                key@ == group@,
                i <= self.bulbs@.len(),
                out@ == group_brightness_messages(self.bulbs@.take(i as int), group@, brightness),
            decreases self.bulbs@.len() - i,
        {
            let bulb = &self.bulbs[i];
            proof {
                assert(self.bulbs@.take(i + 1).drop_last() =~= self.bulbs@.take(i as int));
            }
            let member = match &bulb.group {
                Some(g) => *g == key,
                None => false,
            };
            if member {
                if let Color::Single(Some(c)) = bulb.color {
                    let options = SendOptions {
                        target: Some(bulb.target),
                        ack_required: false,
                        res_required: true,
                        sequence: 0,
                        source: bulb.source,
                    };
                    let color = Hsbk { brightness, ..c };
                    out.push(
                        Outgoing {
                            options,
                            request: Request::LightSetColor { reserved: 0, color, duration: 5 },
                            address: bulb.address,
                        },
                    );
                    if let Some(level) = power_change_of(bulb.power_level, brightness) {
                        out.push(
                            Outgoing {
                                options,
                                request: Request::SetPower { level },
                                address: bulb.address,
                            },
                        );
                    }
                }
            }
            assert(out@ =~= group_brightness_messages(
                self.bulbs@.take(i + 1),
                group@,
                brightness,
            ));
            i = i + 1;
        }
        assert(self.bulbs@.take(self.bulbs@.len() as int) =~= self.bulbs@);
        out
    }
}

proof fn lemma_bulbs_update<A, T>(bs: Seq<BulbInfo<A, T>>, i: int, b: BulbInfo<A, T>)
    requires
        forall|j: int, l: int| 0 <= j < l < bs.len() ==> bs[j].target != bs[l].target,
        0 <= i < bs.len(),
        b.target == bs[i].target,
    ensures
        ({
            let bs2 = bs.update(i, b);
            let v = |s: Seq<BulbInfo<A, T>>|
                Map::new(
                    |t: u64| exists|j: int| 0 <= j < s.len() && s[j].target == t,
                    |t: u64| s[choose|j: int| 0 <= j < s.len() && s[j].target == t],
                );
            &&& forall|j: int, l: int| 0 <= j < l < bs2.len() ==> bs2[j].target != bs2[l].target
            &&& v(bs2) == v(bs).insert(b.target, b)
        }),
{
    let bs2 = bs.update(i, b);
    let v = |s: Seq<BulbInfo<A, T>>|
        Map::new(
            |t: u64| exists|j: int| 0 <= j < s.len() && s[j].target == t,
            |t: u64| s[choose|j: int| 0 <= j < s.len() && s[j].target == t],
        );
    assert forall|j: int, l: int| 0 <= j < l < bs2.len() implies bs2[j].target != bs2[l].target by {
        assert(bs2[j].target == bs[j].target);
        assert(bs2[l].target == bs[l].target);
    }
    assert forall|t: u64| #[trigger] v(bs2).contains_key(t) == v(bs).insert(b.target, b).contains_key(
        t,
    ) by {
        if v(bs2).contains_key(t) {
            let j = choose|j: int| 0 <= j < bs2.len() && bs2[j].target == t;
            assert(bs[j].target == bs2[j].target);
        }
        if v(bs).contains_key(t) {
            let j = choose|j: int| 0 <= j < bs.len() && bs[j].target == t;
            assert(bs[j].target == bs2[j].target);
        }
        if t == b.target {
            assert(bs2[i].target == t);
        }
    }
    assert forall|t: u64| #[trigger] v(bs2).contains_key(t) implies v(bs2)[t] == v(bs).insert(
        b.target,
        b,
    )[t] by {
        let j = choose|j: int| 0 <= j < bs2.len() && bs2[j].target == t;
        if t == b.target {
            assert(j == i);
        } else {
            assert(bs[j] == bs2[j]);
            let l = choose|l: int| 0 <= l < bs.len() && bs[l].target == t;
            assert(l == j);
        }
    }
    assert(v(bs2) =~= v(bs).insert(b.target, b));
}

proof fn lemma_bulbs_push<A, T>(bs: Seq<BulbInfo<A, T>>, b: BulbInfo<A, T>)
    requires
        forall|j: int, l: int| 0 <= j < l < bs.len() ==> bs[j].target != bs[l].target,
        forall|j: int| 0 <= j < bs.len() ==> bs[j].target != b.target,
    ensures
        ({
            let bs2 = bs.push(b);
            let v = |s: Seq<BulbInfo<A, T>>|
                Map::new(
                    |t: u64| exists|j: int| 0 <= j < s.len() && s[j].target == t,
                    |t: u64| s[choose|j: int| 0 <= j < s.len() && s[j].target == t],
                );
            &&& forall|j: int, l: int| 0 <= j < l < bs2.len() ==> bs2[j].target != bs2[l].target
            &&& v(bs2) == v(bs).insert(b.target, b)
        }),
{
    let bs2 = bs.push(b);
    let v = |s: Seq<BulbInfo<A, T>>|
        Map::new(
            |t: u64| exists|j: int| 0 <= j < s.len() && s[j].target == t,
            |t: u64| s[choose|j: int| 0 <= j < s.len() && s[j].target == t],
        );
    assert forall|j: int, l: int| 0 <= j < l < bs2.len() implies bs2[j].target != bs2[l].target by {
        assert(bs2[j] == bs[j]);
        if l < bs.len() {
            assert(bs2[l] == bs[l]);
        }
    }
    assert forall|t: u64| #[trigger] v(bs2).contains_key(t) == v(bs).insert(b.target, b).contains_key(
        t,
    ) by {
        if v(bs2).contains_key(t) && t != b.target {
            let j = choose|j: int| 0 <= j < bs2.len() && bs2[j].target == t;
            assert(j < bs.len());
            assert(bs[j] == bs2[j]);
        }
        if v(bs).contains_key(t) {
            let j = choose|j: int| 0 <= j < bs.len() && bs[j].target == t;
            assert(bs[j] == bs2[j]);
        }
        if t == b.target {
            assert(bs2[bs.len() as int].target == t);
        }
    }
    assert forall|t: u64| #[trigger] v(bs2).contains_key(t) implies v(bs2)[t] == v(bs).insert(
        b.target,
        b,
    )[t] by {
        let j = choose|j: int| 0 <= j < bs2.len() && bs2[j].target == t;
        if t == b.target {
            assert(j == bs.len());
        } else {
            assert(j < bs.len());
            assert(bs[j] == bs2[j]);
            let l = choose|l: int| 0 <= l < bs.len() && bs[l].target == t;
            assert(l == j);
        }
    }
    assert(v(bs2) =~= v(bs).insert(b.target, b));
}

/// A bulb that reports its power level is recorded at that level: standby
/// for 0, enabled for 65535, unknown for any other value; nothing else of
/// the bulb changes.
pub proof fn law_state_power_records_the_level<A, T>(b: BulbInfo<A, T>, level: u16)
    ensures
        bulb_after(b, LifxMessage::StatePower { level }) == (BulbInfo {
            power_level: if level == 0 {
                Some(PowerLevel::Standby)
            } else if level == 65535 {
                Some(PowerLevel::Enabled)
            } else {
                None
            },
            ..b
        }),
{
}

/// A bulb that reports its label, location or group has that one field
/// recorded and nothing else changed.
pub proof fn law_state_labels_record_their_field<A, T>(b: BulbInfo<A, T>, label: String)
    ensures
        bulb_after(b, LifxMessage::StateLabel { label }) == (BulbInfo { name: Some(label), ..b }),
        bulb_after(b, LifxMessage::StateLocation { label }) == (BulbInfo {
            location: Some(label),
            ..b
        }),
        bulb_after(b, LifxMessage::StateGroup { label }) == (BulbInfo { group: Some(label), ..b }),
{
}

/// A bulb that reports its light state has its name recorded; a single
/// color bulb also has its color and its power level recorded (standby for
/// a power of 0, enabled for 65535, unknown otherwise), while a multizone
/// bulb or one of unknown kind keeps its color and power level.
pub proof fn law_light_state_records_the_bulb<A, T>(
    b: BulbInfo<A, T>,
    color: Hsbk,
    power: u16,
    label: String,
)
    ensures
        ({
            let after = bulb_after(b, LifxMessage::LightState { color, power, label });
            &&& after.name == Some(label)
            &&& after.location == b.location
            &&& after.group == b.group
            &&& after.target == b.target
            &&& after.address == b.address
            &&& b.color is Single ==> after.color == Color::Single(Some(color))
                && after.power_level == if power == 0 {
                Some(PowerLevel::Standby)
            } else if power == 65535 {
                Some(PowerLevel::Enabled)
            } else {
                None
            }
            &&& !(b.color is Single) ==> after.color == b.color && after.power_level == b.power_level
        }),
{
}

/// A refresh asks every known bulb, in this order, for its label, its
/// location, its group, its version, its power level and its light state.
pub proof fn law_refresh_asks_each_bulb_for_everything()
    ensures
        refresh_requests().len() == 6,
        refresh_requests()[0] == Request::GetLabel,
        refresh_requests()[1] == Request::GetLocation,
        refresh_requests()[2] == Request::GetGroup,
        refresh_requests()[3] == Request::GetVersion,
        refresh_requests()[4] == Request::GetPower,
        refresh_requests()[5] == Request::LightGet,
{
}

} // verus!
