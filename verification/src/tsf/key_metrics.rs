//! Latency statistics of the synchronous key path: recording only touches counters, and a
//! summary line is produced when the text service is deactivated. Key contents are never recorded.
use vstd::prelude::*;

use crate::text::{decimal, decimal_string};

verus! {

/// Number of latency buckets: <1, 1-2, 2-4, 4-8, 8-16, 16-32 and >=32 milliseconds.
pub const BUCKETS: usize = 7;

/// The counters as values.
pub struct MetricsModel {
    pub count: u64,
    pub total_us: u64,
    pub max_us: u64,
    pub buckets: Seq<u64>,
}

/// Adding with wrap-around, as the counters do.
pub open spec fn wrap_add(a: u64, b: u64) -> u64 {
    vstd::wrapping::u64_specs::wrapping_add(a, b)
}

/// The bucket of a latency in microseconds.
pub open spec fn bucket_of(micros: u64) -> int {
    if micros < 1_000 {
        0
    } else if micros < 2_000 {
        1
    } else if micros < 4_000 {
        2
    } else if micros < 8_000 {
        3
    } else if micros < 16_000 {
        4
    } else if micros < 32_000 {
        5
    } else {
        6
    }
}

/// A duration in microseconds, saturated to 64 bits.
pub open spec fn saturated_micros(micros: u128) -> u64 {
    if micros > u64::MAX as u128 {
        u64::MAX
    } else {
        micros as u64
    }
}

/// The counters after one key took `micros` microseconds.
pub open spec fn recorded(m: MetricsModel, micros: u128) -> MetricsModel {
    let us = saturated_micros(micros);
    let b = bucket_of(us);
    MetricsModel {
        count: wrap_add(m.count, 1),
        total_us: wrap_add(m.total_us, us),
        max_us: if us > m.max_us {
            us
        } else {
            m.max_us
        },
        buckets: m.buckets.update(b, wrap_add(m.buckets[b], 1)),
    }
}

/// The counters after a summary was taken: everything back to zero, or, when no key was recorded,
/// only the key count reset.
pub open spec fn drained(m: MetricsModel) -> MetricsModel {
    if m.count == 0 {
        m
    } else {
        MetricsModel { count: 0, total_us: 0, max_us: 0, buckets: Seq::new(7, |i: int| 0u64) }
    }
}

/// The summary line of the counters; none when no key was recorded.
pub open spec fn summary(m: MetricsModel) -> Option<Seq<char>> {
    if m.count == 0 {
        None
    } else {
        Some(
            "收键同步耗时汇总 keys="@ + decimal(m.count as nat) + " avg_us="@ + decimal(
                (m.total_us / m.count) as nat,
            ) + " max_us="@ + decimal(m.max_us as nat) + " buckets=[<1ms:"@ + decimal(
                m.buckets[0] as nat,
            ) + ",1-2ms:"@ + decimal(m.buckets[1] as nat) + ",2-4ms:"@ + decimal(
                m.buckets[2] as nat,
            ) + ",4-8ms:"@ + decimal(m.buckets[3] as nat) + ",8-16ms:"@ + decimal(
                m.buckets[4] as nat,
            ) + ",16-32ms:"@ + decimal(m.buckets[5] as nat) + ",>=32ms:"@ + decimal(
                m.buckets[6] as nat,
            ) + "]"@,
        )
    }
}

/// Key latency counters of one text-service process.
pub struct KeyMetrics {
    count: u64,
    total_us: u64,
    max_us: u64,
    lt_1_ms: u64,
    lt_2_ms: u64,
    lt_4_ms: u64,
    lt_8_ms: u64,
    lt_16_ms: u64,
    lt_32_ms: u64,
    ge_32_ms: u64,
}

impl View for KeyMetrics {
    type V = MetricsModel;

    closed spec fn view(&self) -> MetricsModel {
        MetricsModel {
            count: self.count,
            total_us: self.total_us,
            max_us: self.max_us,
            buckets: seq![
                self.lt_1_ms,
                self.lt_2_ms,
                self.lt_4_ms,
                self.lt_8_ms,
                self.lt_16_ms,
                self.lt_32_ms,
                self.ge_32_ms,
            ],
        }
    }
}

/// The bucket of a latency in microseconds.
pub fn bucket(micros: u64) -> (r: usize)
    ensures
        r as int == bucket_of(micros),
        r < BUCKETS,
{
    if micros < 1_000 {
        0
    } else if micros < 2_000 {
        1
    } else if micros < 4_000 {
        2
    } else if micros < 8_000 {
        3
    } else if micros < 16_000 {
        4
    } else if micros < 32_000 {
        5
    } else {
        6
    }
}

impl KeyMetrics {
    /// All counters at zero.
    pub fn new() -> (r: Self)
        ensures
            r@ == (MetricsModel {
                count: 0,
                total_us: 0,
                max_us: 0,
                buckets: Seq::new(7, |i: int| 0u64),
            }),
    {
        let r = KeyMetrics {
            count: 0,
            total_us: 0,
            max_us: 0,
            lt_1_ms: 0,
            lt_2_ms: 0,
            lt_4_ms: 0,
            lt_8_ms: 0,
            lt_16_ms: 0,
            lt_32_ms: 0,
            ge_32_ms: 0,
        };
        assert(r@.buckets =~= Seq::new(7, |i: int| 0u64));
        r
    }

    /// Records one key that the input method took, which spent `micros` microseconds on the
    /// synchronous path. No text is formatted and no file is touched.
    pub fn record(&mut self, micros: u128)
        ensures
            final(self)@ == recorded(old(self)@, micros),
    {
        let us: u64 = if micros > u64::MAX as u128 {
            u64::MAX
        } else {
            micros as u64
        };
        self.count = self.count.wrapping_add(1);
        self.total_us = self.total_us.wrapping_add(us);
        if us > self.max_us {
            self.max_us = us;
        }
        match bucket(us) {
            0 => self.lt_1_ms = self.lt_1_ms.wrapping_add(1),
            1 => self.lt_2_ms = self.lt_2_ms.wrapping_add(1),
            2 => self.lt_4_ms = self.lt_4_ms.wrapping_add(1),
            3 => self.lt_8_ms = self.lt_8_ms.wrapping_add(1),
            4 => self.lt_16_ms = self.lt_16_ms.wrapping_add(1),
            5 => self.lt_32_ms = self.lt_32_ms.wrapping_add(1),
            _ => self.ge_32_ms = self.ge_32_ms.wrapping_add(1),
        }
        assert(self@.buckets =~= recorded(old(self)@, micros).buckets);
    }

    /// Takes the statistics gathered since the last summary; `None` when no key was recorded.
    pub fn drain_summary(&mut self) -> (r: Option<String>)
        ensures
            r matches Some(s) ==> summary(old(self)@) == Some(s@),
            r is None ==> summary(old(self)@) is None,
            final(self)@ == drained(old(self)@),
    {
        let count = self.count;
        if count == 0 {
            return None;
        }
        let mut line = String::from_str("收键同步耗时汇总 keys=");
        line.append(decimal_string(count).as_str());
        line.append(" avg_us=");
        line.append(decimal_string(self.total_us / count).as_str());
        line.append(" max_us=");
        line.append(decimal_string(self.max_us).as_str());
        line.append(" buckets=[<1ms:");
        line.append(decimal_string(self.lt_1_ms).as_str());
        line.append(",1-2ms:");
        line.append(decimal_string(self.lt_2_ms).as_str());
        line.append(",2-4ms:");
        line.append(decimal_string(self.lt_4_ms).as_str());
        line.append(",4-8ms:");
        line.append(decimal_string(self.lt_8_ms).as_str());
        line.append(",8-16ms:");
        line.append(decimal_string(self.lt_16_ms).as_str());
        line.append(",16-32ms:");
        line.append(decimal_string(self.lt_32_ms).as_str());
        line.append(",>=32ms:");
        line.append(decimal_string(self.ge_32_ms).as_str());
        line.append("]");
        self.count = 0;
        self.total_us = 0;
        self.max_us = 0;
        self.lt_1_ms = 0;
        self.lt_2_ms = 0;
        self.lt_4_ms = 0;
        self.lt_8_ms = 0;
        self.lt_16_ms = 0;
        self.lt_32_ms = 0;
        self.ge_32_ms = 0;
        assert(self@.buckets =~= Seq::new(7, |i: int| 0u64));
        Some(line)
    }
}

/// A summary is taken once: right after one, the next has nothing to report.
pub proof fn lemma_summary_drains(m: MetricsModel)
    ensures
        summary(drained(m)) is None,
{
}

/// Each recorded key counts once, in exactly one bucket, and the maximum never decreases.
pub proof fn lemma_record_counts_once(m: MetricsModel, micros: u128)
    requires
        m.buckets.len() == 7,
        m.count < u64::MAX,
    ensures
        recorded(m, micros).count == m.count + 1,
        recorded(m, micros).max_us >= m.max_us,
        recorded(m, micros).max_us >= saturated_micros(micros),
        forall|i: int|
            0 <= i < 7 && i != bucket_of(saturated_micros(micros)) ==> recorded(m, micros).buckets[i]
                == m.buckets[i],
{
}

/// The counters of a process that has recorded nothing, and after a summary.
pub open spec fn zero_metrics() -> MetricsModel {
    MetricsModel { count: 0, total_us: 0, max_us: 0, buckets: Seq::new(7, |i: int| 0u64) }
}

/// The counters after recording the keys that took `durations` microseconds, in order.
pub open spec fn recorded_all(m: MetricsModel, durations: Seq<u128>) -> MetricsModel
    decreases durations.len(),
{
    if durations.len() == 0 {
        m
    } else {
        recorded(recorded_all(m, durations.drop_last()), durations.last())
    }
}

/// The sum of the saturated microseconds of `durations`.
pub open spec fn micros_sum(durations: Seq<u128>) -> int
    decreases durations.len(),
{
    if durations.len() == 0 {
        0
    } else {
        micros_sum(durations.drop_last()) + saturated_micros(durations.last())
    }
}

/// The largest saturated microseconds of `durations` (0 for none).
pub open spec fn micros_max(durations: Seq<u128>) -> int
    decreases durations.len(),
{
    if durations.len() == 0 {
        0
    } else if micros_max(durations.drop_last()) >= saturated_micros(durations.last()) {
        micros_max(durations.drop_last())
    } else {
        saturated_micros(durations.last()) as int
    }
}

/// The number of keys counted over all buckets.
pub open spec fn bucket_total(b: Seq<u64>) -> int {
    b[0] + b[1] + b[2] + b[3] + b[4] + b[5] + b[6]
}

proof fn lemma_micros_sum_grows(durations: Seq<u128>)
    ensures
        micros_sum(durations) >= 0,
        durations.len() > 0 ==> micros_sum(durations.drop_last()) <= micros_sum(durations),
    decreases durations.len(),
{
    if durations.len() > 0 {
        lemma_micros_sum_grows(durations.drop_last());
    }
}

/// After `n` keys are recorded from nothing (the total fitting in 64 bits), the counters hold
/// exactly `n` keys, the sum and the maximum of their saturated microseconds, and `n` bucket
/// entries; the summary exists exactly when `n > 0`, and after taking it the counters are back to
/// nothing, so an immediate second summary has nothing to report.
pub proof fn lemma_records_summarised(durations: Seq<u128>)
    requires
        durations.len() <= u64::MAX,
        micros_sum(durations) <= u64::MAX,
    ensures
        recorded_all(zero_metrics(), durations).count == durations.len(),
        recorded_all(zero_metrics(), durations).total_us == micros_sum(durations),
        recorded_all(zero_metrics(), durations).max_us == micros_max(durations),
        recorded_all(zero_metrics(), durations).buckets.len() == 7,
        bucket_total(recorded_all(zero_metrics(), durations).buckets) == durations.len(),
        summary(recorded_all(zero_metrics(), durations)) is Some <==> durations.len() > 0,
        durations.len() > 0 ==> drained(recorded_all(zero_metrics(), durations)) == zero_metrics(),
        summary(drained(recorded_all(zero_metrics(), durations))) is None,
    decreases durations.len(),
{
    let m = recorded_all(zero_metrics(), durations);
    if durations.len() == 0 {
        assert(bucket_total(zero_metrics().buckets) == 0);
    } else {
        let rest = durations.drop_last();
        lemma_micros_sum_grows(durations);
        lemma_micros_sum_grows(rest);
        lemma_records_summarised(rest);
        let p = recorded_all(zero_metrics(), rest);
        let us = saturated_micros(durations.last());
        let b = bucket_of(us);
        assert(forall|i: int| 0 <= i < 7 ==> p.buckets[i] <= p.count) by {
            assert(bucket_total(p.buckets) == p.count);
        }
        assert(p.buckets[b] + 1 <= u64::MAX);
        assert(m.buckets =~= p.buckets.update(b, (p.buckets[b] + 1) as u64));
        assert(bucket_total(m.buckets) == bucket_total(p.buckets) + 1);
    }
}

} // verus!
