use vstd::prelude::*;

use crate::error::EasyKafkaError;

verus! {

/// The outcome of one partition's watermark read.
#[derive(Debug, Clone, Copy, PartialEq, Eq, Structural)]
pub enum WatermarkFetch {
    /// The read returned the partition's high and low watermarks.
    Fetched { high: i64, low: i64 },
    /// The read failed or ran past its timeout.
    Failed,
}

/// One topic of the cluster with the watermark reads of its partitions.
#[derive(Debug, Clone)]
pub struct TopicWatermarks {
    pub name: String,
    pub partitions: Vec<WatermarkFetch>,
}

/// The outcome of the cluster metadata read followed by the watermark reads.
#[derive(Debug, Clone)]
pub enum MetadataFetch {
    /// The metadata read failed or ran past its timeout.
    Failed,
    /// The metadata read succeeded: the broker count and every topic.
    Fetched { broker_count: usize, topics: Vec<TopicWatermarks> },
}

/// Aggregate health figures of a cluster.
#[derive(Debug, Clone, Copy, PartialEq, Eq, Structural)]
pub struct StatisticsSnapshot {
    pub broker_count: usize,
    pub topic_count: usize,
    pub partition_count: usize,
    pub total_lag: usize,
}

pub open spec fn partition_valid(p: WatermarkFetch) -> bool {
    match p {
        WatermarkFetch::Fetched { high, low } => low <= high,
        WatermarkFetch::Failed => false,
    }
}

/// The lag a partition contributes: high minus low, for a valid read.
pub open spec fn partition_lag(p: WatermarkFetch) -> int {
    match p {
        WatermarkFetch::Fetched { high, low } => if low <= high { high - low } else { 0 },
        WatermarkFetch::Failed => 0,
    }
}

pub open spec fn partitions_lag(ps: Seq<WatermarkFetch>) -> int
    decreases ps.len(),
{
    if ps.len() == 0 {
        0
    } else {
        partitions_lag(ps.drop_last()) + partition_lag(ps.last())
    }
}

pub open spec fn topics_lag(ts: Seq<Seq<WatermarkFetch>>) -> int
    decreases ts.len(),
{
    if ts.len() == 0 {
        0
    } else {
        topics_lag(ts.drop_last()) + partitions_lag(ts.last())
    }
}

pub open spec fn topics_partitions(ts: Seq<Seq<WatermarkFetch>>) -> int
    decreases ts.len(),
{
    if ts.len() == 0 {
        0
    } else {
        topics_partitions(ts.drop_last()) + ts.last().len()
    }
}

pub open spec fn topics_valid(ts: Seq<Seq<WatermarkFetch>>) -> bool {
    forall|i: int, j: int|
        0 <= i < ts.len() && 0 <= j < ts[i].len() ==> #[trigger] partition_valid(ts[i][j])
}

pub open spec fn topics_view(topics: Seq<TopicWatermarks>) -> Seq<Seq<WatermarkFetch>> {
    topics.map_values(|t: TopicWatermarks| t.partitions@)
}

/// The snapshot a successful metadata read yields, when every watermark read
/// is valid and the totals fit the counters; `None` otherwise.
pub open spec fn statistics_of(broker_count: usize, ts: Seq<Seq<WatermarkFetch>>) -> Option<
    StatisticsSnapshot,
> {
    if topics_valid(ts) && topics_partitions(ts) <= usize::MAX && topics_lag(ts) <= usize::MAX {
        Some(
            StatisticsSnapshot {
                broker_count,
                topic_count: ts.len() as usize,
                partition_count: topics_partitions(ts) as usize,
                total_lag: topics_lag(ts) as usize,
            },
        )
    } else {
        None
    }
}

/// What `compute_statistics` returns for a fetch outcome.
pub open spec fn statistics_result(fetch: MetadataFetch) -> Result<StatisticsSnapshot, EasyKafkaError> {
    match fetch {
        MetadataFetch::Failed => Err(EasyKafkaError::MetadataFetchFailed),
        MetadataFetch::Fetched { broker_count, topics } => match statistics_of(
            broker_count,
            topics_view(topics@),
        ) {
            Some(s) => Ok(s),
            None => Err(EasyKafkaError::MetadataFetchFailed),
        },
    }
}

proof fn lemma_partitions_lag_prefix(ps: Seq<WatermarkFetch>, j: int)
    requires
        0 <= j <= ps.len(),
    ensures
        0 <= partitions_lag(ps.take(j)) <= partitions_lag(ps),
    decreases ps.len(),
{
    if ps.len() > 0 {
        if j == ps.len() {
            assert(ps.take(j) =~= ps);
            lemma_partitions_lag_prefix(ps.drop_last(), j - 1);
            assert(ps.drop_last().take(j - 1) =~= ps.take(j - 1));
        } else {
            lemma_partitions_lag_prefix(ps.drop_last(), j);
            assert(ps.drop_last().take(j) =~= ps.take(j));
        }
    }
}

proof fn lemma_topics_prefix(ts: Seq<Seq<WatermarkFetch>>, i: int)
    requires
        0 <= i <= ts.len(),
    ensures
        0 <= topics_lag(ts.take(i)) <= topics_lag(ts),
        0 <= topics_partitions(ts.take(i)) <= topics_partitions(ts),
    decreases ts.len(),
{
    if ts.len() > 0 {
        lemma_partitions_lag_prefix(ts.last(), ts.last().len() as int);
        assert(ts.last().take(ts.last().len() as int) =~= ts.last());
        if i == ts.len() {
            assert(ts.take(i) =~= ts);
            lemma_topics_prefix(ts.drop_last(), i - 1);
        } else {
            lemma_topics_prefix(ts.drop_last(), i);
            assert(ts.drop_last().take(i) =~= ts.take(i));
        }
    }
}

proof fn lemma_topics_step(ts: Seq<Seq<WatermarkFetch>>, i: int)
    requires
        0 <= i < ts.len(),
    ensures
        topics_lag(ts.take(i + 1)) == topics_lag(ts.take(i)) + partitions_lag(ts[i]),
        topics_partitions(ts.take(i + 1)) == topics_partitions(ts.take(i)) + ts[i].len(),
{
    assert(ts.take(i + 1).drop_last() =~= ts.take(i));
}

proof fn lemma_partitions_step(ps: Seq<WatermarkFetch>, j: int)
    requires
        0 <= j < ps.len(),
    ensures
        partitions_lag(ps.take(j + 1)) == partitions_lag(ps.take(j)) + partition_lag(ps[j]),
{
    assert(ps.take(j + 1).drop_last() =~= ps.take(j));
}

/// Aggregates one partition list onto running totals; `None` when a read is
/// invalid or a total leaves the counter range.
fn add_partitions(ps: &Vec<WatermarkFetch>, lag: usize) -> (r: Option<usize>)
    ensures
        match r {
            Some(total) => {
                &&& forall|j: int| 0 <= j < ps@.len() ==> #[trigger] partition_valid(ps@[j])
                &&& total == lag + partitions_lag(ps@)
            },
            None => !(forall|j: int| 0 <= j < ps@.len() ==> #[trigger] partition_valid(ps@[j]))
                || lag + partitions_lag(ps@) > usize::MAX,
        },
{
    let mut total: usize = lag;
    let mut j: usize = 0;
    while j < ps.len()
        invariant
            j <= ps.len(),
            total == lag + partitions_lag(ps@.take(j as int)),
            forall|k: int| 0 <= k < j ==> #[trigger] partition_valid(ps@[k]),
        decreases ps.len() - j,
    {
        proof {
            lemma_partitions_step(ps@, j as int);
            lemma_partitions_lag_prefix(ps@, j as int + 1);
        }
        match ps[j] {
            WatermarkFetch::Fetched { high, low } => {
                if high < low {
                    assert(!partition_valid(ps@[j as int]));
                    return None;
                }
                let d: i128 = high as i128 - low as i128;
                if d > (usize::MAX - total) as i128 {
                    return None;
                }
                total = total + d as usize;
            },
            WatermarkFetch::Failed => {
                assert(!partition_valid(ps@[j as int]));
                return None;
            },
        }
        j += 1;
    }
    assert(ps@.take(ps.len() as int) =~= ps@);
    Some(total)
}

/// Computes cluster statistics from a metadata read and the watermark reads of
/// every partition. A failed metadata read, a failed watermark read, or a
/// negative lag yields `MetadataFetchFailed`; a cluster without topics yields
/// zero partitions and zero lag.
pub fn compute_statistics(fetch: &MetadataFetch) -> (r: Result<StatisticsSnapshot, EasyKafkaError>)
    ensures
        r == statistics_result(*fetch),
{
    match fetch {
        MetadataFetch::Failed => Err(EasyKafkaError::MetadataFetchFailed),
        MetadataFetch::Fetched { broker_count, topics } => {
            let ghost ts = topics_view(topics@);
            let mut partitions: usize = 0;
            let mut lag: usize = 0;
            let mut i: usize = 0;
            while i < topics.len()
                invariant
                    i <= topics.len(),
                    ts == topics_view(topics@),
                    fetch is Fetched,
                    fetch->broker_count == *broker_count,
                    fetch->topics == *topics,
                    partitions == topics_partitions(ts.take(i as int)),
                    lag == topics_lag(ts.take(i as int)),
                    forall|a: int, b: int|
                        0 <= a < i && 0 <= b < ts[a].len() ==> #[trigger] partition_valid(ts[a][b]),
                decreases topics.len() - i,
            {
                let ps = &topics[i].partitions;
                proof {
                    lemma_topics_step(ts, i as int);
                    lemma_topics_prefix(ts, i as int + 1);
                    assert(ts[i as int] == ps@);
                }
                if ps.len() > usize::MAX - partitions {
                    assert(topics_partitions(ts) > usize::MAX);
                    return Err(EasyKafkaError::MetadataFetchFailed);
                }
                match add_partitions(ps, lag) {
                    Some(total) => {
                        lag = total;
                    },
                    None => {
                        proof {
                            if topics_valid(ts) {
                                assert forall|j: int| 0 <= j < ps@.len() implies #[trigger] partition_valid(
                                    ps@[j],
                                ) by {
                                    assert(partition_valid(ts[i as int][j]));
                                }
                                assert(topics_lag(ts) > usize::MAX);
                            }
                                }
                        return Err(EasyKafkaError::MetadataFetchFailed);
                    },
                }
                partitions = partitions + ps.len();
                i += 1;
            }
            assert(ts.take(topics.len() as int) =~= ts);
            Ok(
                StatisticsSnapshot {
                    broker_count: *broker_count,
                    topic_count: topics.len(),
                    partition_count: partitions,
                    total_lag: lag,
                },
            )
        },
    }
}

/// A cluster without topics yields a snapshot with its broker count, no
/// topics, no partitions and no lag, never an error.
pub proof fn lemma_empty_cluster(broker_count: usize, topics: Vec<TopicWatermarks>)
    requires
        topics@.len() == 0,
    ensures
        statistics_result(MetadataFetch::Fetched { broker_count, topics }) == Ok::<
            StatisticsSnapshot,
            EasyKafkaError,
        >(StatisticsSnapshot { broker_count, topic_count: 0, partition_count: 0, total_lag: 0 }),
{
    assert(topics_view(topics@) =~= Seq::<Seq<WatermarkFetch>>::empty());
}

} // verus!
