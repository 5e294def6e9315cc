//! Properties of the driver's protocol that span several steps.
use vstd::prelude::*;

use super::types::{Gain, IntegrationTime, TSL2591Error};
use super::{BusReply, Channels, ControlField, ControlQuery, Pending, Reading, SensorState, Step, TSL2591Sensor};

verus! {

/// Rewriting the gain bits of the control register leaves the integration
/// time bits alone, and rewriting the integration time bits leaves the gain
/// bits alone.
pub proof fn law_control_fields_independent(control: u8, g: Gain, t: IntegrationTime)
    ensures
        super::control_with_gain(control, g) & 0b0000111 == control & 0b0000111,
        super::control_with_time(control, t) & 0b00110000 == control & 0b00110000,
{
    let gb = super::types::gain_bits(g);
    let tb = super::types::time_bits(t);
    assert(gb == 0 || gb == 0x10 || gb == 0x20 || gb == 0x30);
    assert(tb <= 5);
    assert(((control & 0b11001111) | gb) & 0b0000111 == control & 0b0000111) by (bit_vector)
        requires
            gb == 0 || gb == 0x10 || gb == 0x20 || gb == 0x30,
    ;
    assert(((control & 0b11111000) | tb) & 0b00110000 == control & 0b00110000) by (bit_vector)
        requires
            tb <= 5,
    ;
}

/// A gain written into the control register is the gain read back from it.
pub proof fn law_gain_read_after_write(control: u8, g: Gain)
    ensures
        super::types::gain_of(super::control_with_gain(control, g) & 0b00110000) == g,
{
    let gb = super::types::gain_bits(g);
    assert(((control & 0b11001111) | gb) & 0b00110000 == gb) by (bit_vector)
        requires
            gb == 0 || gb == 0x10 || gb == 0x20 || gb == 0x30,
    ;
}

/// An integration time written into the control register is the one read back from it.
pub proof fn law_time_read_after_write(control: u8, t: IntegrationTime)
    ensures
        super::control_with_time(control, t) & 0b0000111 <= 5,
        super::types::time_of(super::control_with_time(control, t) & 0b0000111) == t,
{
    let tb = super::types::time_bits(t);
    assert(((control & 0b11111000) | tb) & 0b0000111 == tb) by (bit_vector)
        requires
            tb <= 5,
    ;
}

/// Setting the gain, then asking for it: the driver reads the control
/// register, writes it back with the new gain bits, records the gain, and a
/// later query of a device that kept the written value reports that gain.
pub proof fn law_set_gain_then_get_gain<E>(
    s: SensorState,
    g: Gain,
    control: u8,
    first: Vec<u8>,
    second: Vec<u8>,
)
    requires
        first@ == seq![control],
        second@ == seq![super::control_with_gain(control, g)],
    ensures
        ({
            let s1 = SensorState {
                pending: Pending::ReadControl { field: ControlField::Gain(g), init: false },
                ..s
            };
            let (s2, step2) = super::advance::<E>(s1, BusReply::Read(first));
            let (s3, step3) = super::advance::<E>(s2, BusReply::Written);
            let s4 = SensorState { pending: Pending::QueryControl(ControlQuery::Gain), ..s3 };
            let (s5, step5) = super::advance::<E>(s4, BusReply::Read(second));
            &&& step2 == Step::<E>::Transfer(
                super::write_op(super::TSL2591_REGISTER_CONTROL, super::control_with_gain(control, g)),
            )
            &&& step3 == Step::<E>::Finished(Ok(Reading::Done))
            &&& s3 == (SensorState { gain: g, pending: Pending::Idle, ..s })
            &&& step5 == Step::<E>::Finished(Ok(Reading::Gain(g)))
            &&& s5 == s3
        }),
{
    law_gain_read_after_write(control, g);
}

/// Setting the integration time, then asking for it, reports that time.
pub proof fn law_set_time_then_get_time<E>(
    s: SensorState,
    t: IntegrationTime,
    control: u8,
    first: Vec<u8>,
    second: Vec<u8>,
)
    requires
        first@ == seq![control],
        second@ == seq![super::control_with_time(control, t)],
    ensures
        ({
            let s1 = SensorState {
                integration_time: t,
                pending: Pending::ReadControl { field: ControlField::Time(t), init: false },
                ..s
            };
            let (s2, step2) = super::advance::<E>(s1, BusReply::Read(first));
            let (s3, step3) = super::advance::<E>(s2, BusReply::Written);
            let s4 = SensorState { pending: Pending::QueryControl(ControlQuery::Time), ..s3 };
            let (s5, step5) = super::advance::<E>(s4, BusReply::Read(second));
            &&& step2 == Step::<E>::Transfer(
                super::write_op(super::TSL2591_REGISTER_CONTROL, super::control_with_time(control, t)),
            )
            &&& step3 == Step::<E>::Finished(Ok(Reading::Done))
            &&& s3 == (SensorState { integration_time: t, pending: Pending::Idle, ..s })
            &&& super::expects(s4.pending, BusReply::<E>::Read(second))
            &&& step5 == Step::<E>::Finished(Ok(Reading::IntegrationTime(t)))
            &&& s5 == s3
        }),
{
    law_time_read_after_write(control, t);
}

/// A failing bus ends any operation with its error, and leaves the
/// configured gain and integration time as they were.
pub proof fn law_bus_failure_ends_operation<E>(s: SensorState, e: E)
    ensures
        super::advance::<E>(s, BusReply::Failed(e)) == (
        SensorState { pending: Pending::Idle, ..s },
        Step::<E>::Finished(Err(TSL2591Error::I2cError(e))),
        ),
{
}

/// Bringing the sensor up: with a device that answers its identifier and
/// whose control register reads `c1`, then `c2`, the driver performs exactly
/// these transactions: read the identifier, read and rewrite the gain bits,
/// read and rewrite the integration time bits, power the device on.
pub proof fn law_new_sequence<E>(
    c1: u8,
    c2: u8,
    id: Vec<u8>,
    r1: Vec<u8>,
    r2: Vec<u8>,
)
    requires
        id@ == seq![super::TSL2591_DEVICE_ID],
        r1@ == seq![c1],
        r2@ == seq![c2],
    ensures
        ({
            let s0 = SensorState {
                gain: Gain::LOW,
                integration_time: IntegrationTime::Time100ms,
                pending: Pending::ReadId,
            };
            let (s1, t1) = super::advance::<E>(s0, BusReply::Read(id));
            let (s2, t2) = super::advance::<E>(s1, BusReply::Read(r1));
            let (s3, t3) = super::advance::<E>(s2, BusReply::Written);
            let (s4, t4) = super::advance::<E>(s3, BusReply::Read(r2));
            let (s5, t5) = super::advance::<E>(s4, BusReply::Written);
            let (s6, t6) = super::advance::<E>(s5, BusReply::Written);
            &&& t1 == Step::<E>::Transfer(super::read_op(super::TSL2591_REGISTER_CONTROL, 1))
            &&& super::expects(s1.pending, BusReply::<E>::Read(r1))
            &&& t2 == Step::<E>::Transfer(
                super::write_op(super::TSL2591_REGISTER_CONTROL, super::control_with_gain(c1, Gain::LOW)),
            )
            &&& super::expects(s2.pending, BusReply::<E>::Written)
            &&& t3 == Step::<E>::Transfer(super::read_op(super::TSL2591_REGISTER_CONTROL, 1))
            &&& super::expects(s3.pending, BusReply::<E>::Read(r2))
            &&& t4 == Step::<E>::Transfer(
                super::write_op(
                    super::TSL2591_REGISTER_CONTROL,
                    super::control_with_time(c2, IntegrationTime::Time100ms),
                ),
            )
            &&& super::expects(s4.pending, BusReply::<E>::Written)
            &&& t5 == Step::<E>::Transfer(
                super::write_op(super::TSL2591_REGISTER_ENABLE, super::power_on_value()),
            )
            &&& super::expects(s5.pending, BusReply::<E>::Written)
            &&& t6 == Step::<E>::Finished(Ok(Reading::Done))
            &&& s6 == (SensorState {
                gain: Gain::LOW,
                integration_time: IntegrationTime::Time100ms,
                pending: Pending::Idle,
            })
        }),
{
}

/// A device that does not answer with the TSL2591 identifier is refused
/// before anything is written to it.
pub proof fn law_new_refuses_other_devices<E>(s: SensorState, id: Vec<u8>)
    requires
        s.pending == Pending::ReadId,
        id@.len() == 1,
        id@[0] != super::TSL2591_DEVICE_ID,
    ensures
        super::advance::<E>(s, BusReply::Read(id)) == (
        SensorState { pending: Pending::Idle, ..s },
        Step::<E>::Finished(Err(TSL2591Error::RuntimeError)),
        ),
{
}

/// The full spectrum is the second channel in the high word and the first
/// in the low one, the infrared light is the second channel, and the visible
/// light is the full spectrum less the infrared light.
pub proof fn law_visible_is_full_spectrum_less_infrared<E>(
    t: IntegrationTime,
    ch0: u16,
    ch1: u16,
)
    ensures
        super::channels_result::<E>(Channels::FullSpectrum, t, ch0, ch1) == Ok::<
            Reading,
            TSL2591Error<E>,
        >(Reading::FullSpectrum((ch1 * 65536 + ch0) as u32)),
        super::channels_result::<E>(Channels::Infrared, t, ch0, ch1) == Ok::<
            Reading,
            TSL2591Error<E>,
        >(Reading::Infrared(ch1)),
        super::channels_result::<E>(Channels::Visible, t, ch0, ch1) == Ok::<
            Reading,
            TSL2591Error<E>,
        >(Reading::Visible(((ch1 * 65536 + ch0) - ch1) as u32)),
        (ch1 * 65536 + ch0) - ch1 >= 0,
{
}

/// A lux reading is refused when a channel is saturated, and the count at
/// which a channel saturates depends on the integration time: 0x8FFF at
/// 100ms, 0xFFFF at any longer time. Otherwise the reading gives the two
/// channels as they were read.
pub proof fn law_lux_refuses_saturated_channels<E>(t: IntegrationTime, ch0: u16, ch1: u16)
    ensures
        t == IntegrationTime::Time100ms ==> super::channels_result::<E>(Channels::Lux, t, ch0, ch1)
            == if ch0 >= 0x8FFF || ch1 >= 0x8FFF {
            Err::<Reading, TSL2591Error<E>>(TSL2591Error::OverflowError)
        } else {
            Ok::<Reading, TSL2591Error<E>>(Reading::Channels(ch0, ch1))
        },
        t != IntegrationTime::Time100ms ==> super::channels_result::<E>(Channels::Lux, t, ch0, ch1)
            == if ch0 == 0xFFFF || ch1 == 0xFFFF {
            Err::<Reading, TSL2591Error<E>>(TSL2591Error::OverflowError)
        } else {
            Ok::<Reading, TSL2591Error<E>>(Reading::Channels(ch0, ch1))
        },
{
}

/// The control register of a device that keeps what is written to it,
/// once the integration times `times` were set in turn, starting from
/// `control`.
pub open spec fn register_after_times(control: u8, times: Seq<IntegrationTime>) -> u8
    decreases times.len(),
{
    if times.len() == 0 {
        control
    } else {
        super::control_with_time(register_after_times(control, times.drop_last()), times.last())
    }
}

/// The driver's state once the integration times `times` were set in turn
/// from state `s`: for each, the control register is read (round `i` reads
/// back `reads[i]`), then written, and the write goes through.
pub open spec fn after_time_changes<E>(
    s: SensorState,
    times: Seq<IntegrationTime>,
    reads: Seq<Vec<u8>>,
) -> SensorState
    decreases times.len(),
{
    if times.len() == 0 {
        s
    } else {
        let before = after_time_changes::<E>(s, times.drop_last(), reads);
        let t = times.last();
        let asked = SensorState {
            integration_time: t,
            pending: Pending::ReadControl { field: ControlField::Time(t), init: false },
            ..before
        };
        let (read, _) = super::advance::<E>(asked, BusReply::Read(reads[times.len() - 1]));
        let (written, _) = super::advance::<E>(read, BusReply::Written);
        written
    }
}

proof fn lemma_time_changes_keep_gain<E>(
    s: SensorState,
    control: u8,
    times: Seq<IntegrationTime>,
    reads: Seq<Vec<u8>>,
)
    requires
        s.pending == Pending::Idle,
    ensures
        after_time_changes::<E>(s, times, reads) == (SensorState {
            integration_time: if times.len() == 0 {
                s.integration_time
            } else {
                times.last()
            },
            ..s
        }),
        register_after_times(control, times) & 0b00110000 == control & 0b00110000,
    decreases times.len(),
{
    if times.len() > 0 {
        let rest = times.drop_last();
        lemma_time_changes_keep_gain::<E>(s, control, rest, reads);
        law_control_fields_independent(register_after_times(control, rest), Gain::LOW, times.last());
    }
}

/// Setting the gain, then any number of integration times, then asking for
/// the gain: the driver keeps the gain, and a device that kept each
/// written value reports it, whatever the integration times set after it.
pub proof fn law_gain_survives_time_changes<E>(
    s: SensorState,
    g: Gain,
    control: u8,
    first: Vec<u8>,
    times: Seq<IntegrationTime>,
    reads: Seq<Vec<u8>>,
    last: Vec<u8>,
)
    requires
        first@ == seq![control],
        reads.len() == times.len(),
        forall|i: int|
            0 <= i < reads.len() ==> (#[trigger] reads[i])@ == seq![
                register_after_times(super::control_with_gain(control, g), times.take(i)),
            ],
        last@ == seq![register_after_times(super::control_with_gain(control, g), times)],
    ensures
        ({
            let s1 = SensorState {
                pending: Pending::ReadControl { field: ControlField::Gain(g), init: false },
                ..s
            };
            let (s2, _) = super::advance::<E>(s1, BusReply::Read(first));
            let (s3, _) = super::advance::<E>(s2, BusReply::Written);
            let sn = after_time_changes::<E>(s3, times, reads);
            let asked = SensorState { pending: Pending::QueryControl(ControlQuery::Gain), ..sn };
            let (done, step) = super::advance::<E>(asked, BusReply::Read(last));
            &&& sn.gain == g
            &&& sn.pending == Pending::Idle
            &&& step == Step::<E>::Finished(Ok(Reading::Gain(g)))
            &&& done == sn
        }),
{
    let written = super::control_with_gain(control, g);
    let s1 = SensorState {
        pending: Pending::ReadControl { field: ControlField::Gain(g), init: false },
        ..s
    };
    let (s2, _) = super::advance::<E>(s1, BusReply::Read(first));
    let (s3, _) = super::advance::<E>(s2, BusReply::Written);
    lemma_time_changes_keep_gain::<E>(s3, written, times, reads);
    law_gain_read_after_write(control, g);
    assert(last@[0] == register_after_times(written, times));
}

/// The bus at the end of a run that started on `start`: a step that lends
/// the bus (`Some`) leaves it as the borrower did, any other step (`None`)
/// leaves it as it was.
pub open spec fn bus_after<I2C>(start: I2C, lends: Seq<Option<I2C>>) -> I2C
    decreases lends.len(),
{
    if lends.len() == 0 {
        start
    } else {
        match lends.last() {
            Some(b) => b,
            None => bus_after(start, lends.drop_last()),
        }
    }
}

/// A run of the driver: `run[i + 1]` is the sensor after step `i`, which
/// either lent the bus and got it back as `lends[i]` (`bus_mut`) or was an
/// operation of the driver, which keeps the bus (`set_gain`, `resume`, ...).
pub open spec fn is_run<I2C>(run: Seq<TSL2591Sensor<I2C>>, lends: Seq<Option<I2C>>) -> bool {
    &&& run.len() == lends.len() + 1
    &&& forall|i: int|
        0 <= i < lends.len() ==> #[trigger] run[i + 1].bus() == match lends[i] {
            Some(b) => b,
            None => run[i].bus(),
        }
}

/// A run in which nobody performed a transaction on the lent bus ends on
/// the bus it started with.
proof fn lemma_bus_after_without_transactions<I2C>(start: I2C, lends: Seq<Option<I2C>>)
    requires
        forall|i: int| 0 <= i < lends.len() ==> #[trigger] lends[i] is None,
    ensures
        bus_after(start, lends) == start,
    decreases lends.len(),
{
    if lends.len() > 0 {
        assert(lends[lends.len() - 1] is None);
        let rest = lends.drop_last();
        assert forall|i: int| 0 <= i < rest.len() implies #[trigger] rest[i] is None by {
            assert(rest[i] == lends[i]);
        }
        lemma_bus_after_without_transactions(start, rest);
    }
}

/// `destroy` hands back the bus that was given to `new`: from the sensor
/// that `new` made on `i2c`, through any run of the driver's operations,
/// the bus the sensor holds at the end, which is what `destroy` returns, is
/// `i2c` as left by the transactions performed on it through `bus_mut`; the
/// driver's own steps and `destroy` perform none, so where no transaction
/// was performed it is `i2c` itself.
pub proof fn law_destroy_returns_the_bus<I2C>(
    i2c: I2C,
    run: Seq<TSL2591Sensor<I2C>>,
    lends: Seq<Option<I2C>>,
)
    requires
        is_run(run, lends),
        run[0] == TSL2591Sensor::<I2C>::started(i2c),
    ensures
        run.last().bus() == bus_after(i2c, lends),
        (forall|i: int| 0 <= i < lends.len() ==> #[trigger] lends[i] is None) ==> run.last().bus()
            == i2c,
{
    assert(run[0].bus() == i2c);
    lemma_run_ends_on_bus_after(i2c, run, lends);
    if forall|i: int| 0 <= i < lends.len() ==> #[trigger] lends[i] is None {
        lemma_bus_after_without_transactions(i2c, lends);
    }
}

/// Along a run, the bus is the one it started on as changed by the lends.
proof fn lemma_run_ends_on_bus_after<I2C>(
    i2c: I2C,
    run: Seq<TSL2591Sensor<I2C>>,
    lends: Seq<Option<I2C>>,
)
    requires
        is_run(run, lends),
        run[0].bus() == i2c,
    ensures
        run.last().bus() == bus_after(i2c, lends),
    decreases lends.len(),
{
    if lends.len() > 0 {
        let n = lends.len() - 1;
        assert(run[n + 1].bus() == match lends[n] {
            Some(b) => b,
            None => run[n].bus(),
        });
        lemma_run_ends_on_bus_after(i2c, run.drop_last(), lends.drop_last());
        assert(run.drop_last().last() == run[n]);
    }
}

} // verus!
