use vstd::prelude::*;

use crate::decimal::{count_from_str, count_to_string, decimal, lemma_count_round_trip, parse_count};
use crate::stats::StatisticsSnapshot;

verus! {

pub const BROKER_TITLE: &'static str = "Broker数量";
pub const BROKER_ICON: &'static str = "Connection";
pub const BROKER_COLOR: &'static str = "#409EFF";
pub const TOPIC_TITLE: &'static str = "Topic总数";
pub const TOPIC_ICON: &'static str = "Document";
pub const TOPIC_COLOR: &'static str = "#67C23A";
pub const PARTITION_TITLE: &'static str = "分区总数";
pub const PARTITION_ICON: &'static str = "Partition";
pub const PARTITION_COLOR: &'static str = "#E6A23C";
pub const LAG_TITLE: &'static str = "分区总偏移量";
pub const LAG_ICON: &'static str = "Partition";
pub const LAG_COLOR: &'static str = "#E6A23C";

/// One dashboard tile: a caption, a count in decimal, an icon and a colour.
#[derive(Debug)]
pub struct StatisticsItem {
    pub title: String,
    pub value: String,
    pub icon: String,
    pub color: String,
}

pub ghost struct ItemView {
    pub title: Seq<char>,
    pub value: Seq<char>,
    pub icon: Seq<char>,
    pub color: Seq<char>,
}

impl View for StatisticsItem {
    type V = ItemView;

    open spec fn view(&self) -> ItemView {
        ItemView { title: self.title@, value: self.value@, icon: self.icon@, color: self.color@ }
    }
}

pub open spec fn item_spec(title: &str, icon: &str, color: &str, n: usize) -> ItemView {
    ItemView { title: title@, value: decimal(n as nat), icon: icon@, color: color@ }
}

/// The count a tile shows: its value read as an unsigned number, zero where
/// it does not read as one.
pub open spec fn count_value(s: Seq<char>) -> usize {
    match parse_count(s) {
        Some(v) => v,
        None => 0,
    }
}

fn make_item(title: &str, icon: &str, color: &str, n: usize) -> (r: StatisticsItem)
    ensures
        r@ == item_spec(title, icon, color, n),
        count_value(r.value@) == n,
{
    proof {
        lemma_count_round_trip(n);
    }
    StatisticsItem {
        title: String::from_str(title),
        value: count_to_string(n as u64),
        icon: String::from_str(icon),
        color: String::from_str(color),
    }
}

impl Default for StatisticsItem {
    fn default() -> (r: StatisticsItem)
        ensures
            r@ == (ItemView {
                title: Seq::empty(),
                value: Seq::empty(),
                icon: Seq::empty(),
                color: Seq::empty(),
            }),
    {
        let r = StatisticsItem {
            title: String::new(),
            value: String::new(),
            icon: String::new(),
            color: String::new(),
        };
        r
    }
}

impl StatisticsItem {
    /// The broker-count tile for `broker_count`.
    pub fn create_broker_count_item(broker_count: usize) -> (r: StatisticsItem)
        ensures
            r@ == item_spec(BROKER_TITLE, BROKER_ICON, BROKER_COLOR, broker_count),
            count_value(r.value@) == broker_count,
    {
        make_item(BROKER_TITLE, BROKER_ICON, BROKER_COLOR, broker_count)
    }

    /// The topic-count tile for `topic_count`.
    pub fn create_topic_count_item(topic_count: usize) -> (r: StatisticsItem)
        ensures
            r@ == item_spec(TOPIC_TITLE, TOPIC_ICON, TOPIC_COLOR, topic_count),
            count_value(r.value@) == topic_count,
    {
        make_item(TOPIC_TITLE, TOPIC_ICON, TOPIC_COLOR, topic_count)
    }

    /// The partition-count tile for `partition_count`.
    pub fn create_partition_count_item(partition_count: usize) -> (r: StatisticsItem)
        ensures
            r@ == item_spec(PARTITION_TITLE, PARTITION_ICON, PARTITION_COLOR, partition_count),
            count_value(r.value@) == partition_count,
    {
        make_item(PARTITION_TITLE, PARTITION_ICON, PARTITION_COLOR, partition_count)
    }

    /// The total-lag tile for `lag_count`.
    pub fn create_lag_count_item(lag_count: usize) -> (r: StatisticsItem)
        ensures
            r@ == item_spec(LAG_TITLE, LAG_ICON, LAG_COLOR, lag_count),
            count_value(r.value@) == lag_count,
    {
        make_item(LAG_TITLE, LAG_ICON, LAG_COLOR, lag_count)
    }
}

/// The dashboard's four statistics tiles.
#[derive(Debug)]
pub struct DashboardStatistics {
    pub topic_count: StatisticsItem,
    pub partition_count: StatisticsItem,
    pub broker_count: StatisticsItem,
    pub lag_count: StatisticsItem,
}

impl Default for DashboardStatistics {
    fn default() -> (r: DashboardStatistics)
        ensures
            r.topic_count.value@ == Seq::<char>::empty(),
            r.partition_count.value@ == Seq::<char>::empty(),
            r.broker_count.value@ == Seq::<char>::empty(),
            r.lag_count.value@ == Seq::<char>::empty(),
    {
        DashboardStatistics {
            topic_count: StatisticsItem::default(),
            partition_count: StatisticsItem::default(),
            broker_count: StatisticsItem::default(),
            lag_count: StatisticsItem::default(),
        }
    }
}

impl DashboardStatistics {
    /// The tiles of a statistics snapshot.
    pub fn from_snapshot(s: &StatisticsSnapshot) -> (r: DashboardStatistics)
        ensures
            r.broker_count@ == item_spec(BROKER_TITLE, BROKER_ICON, BROKER_COLOR, s.broker_count),
            r.topic_count@ == item_spec(TOPIC_TITLE, TOPIC_ICON, TOPIC_COLOR, s.topic_count),
            r.partition_count@ == item_spec(
                PARTITION_TITLE,
                PARTITION_ICON,
                PARTITION_COLOR,
                s.partition_count,
            ),
            r.lag_count@ == item_spec(LAG_TITLE, LAG_ICON, LAG_COLOR, s.total_lag),
            count_value(r.broker_count.value@) == s.broker_count,
            count_value(r.topic_count.value@) == s.topic_count,
            count_value(r.partition_count.value@) == s.partition_count,
            count_value(r.lag_count.value@) == s.total_lag,
    {
        DashboardStatistics {
            topic_count: StatisticsItem::create_topic_count_item(s.topic_count),
            partition_count: StatisticsItem::create_partition_count_item(s.partition_count),
            broker_count: StatisticsItem::create_broker_count_item(s.broker_count),
            lag_count: StatisticsItem::create_lag_count_item(s.total_lag),
        }
    }

    pub fn set_broker_count(&mut self, broker_count: usize)
        ensures
            final(self).broker_count@ == item_spec(
                BROKER_TITLE,
                BROKER_ICON,
                BROKER_COLOR,
                broker_count,
            ),
            count_value(final(self).broker_count.value@) == broker_count,
            final(self).topic_count == old(self).topic_count,
            final(self).partition_count == old(self).partition_count,
            final(self).lag_count == old(self).lag_count,
    {
        self.broker_count = StatisticsItem::create_broker_count_item(broker_count);
    }

    pub fn set_topic_count(&mut self, topic_count: usize)
        ensures
            final(self).topic_count@ == item_spec(TOPIC_TITLE, TOPIC_ICON, TOPIC_COLOR, topic_count),
            count_value(final(self).topic_count.value@) == topic_count,
            final(self).broker_count == old(self).broker_count,
            final(self).partition_count == old(self).partition_count,
            final(self).lag_count == old(self).lag_count,
    {
        self.topic_count = StatisticsItem::create_topic_count_item(topic_count);
    }

    pub fn set_partition_count(&mut self, partition_count: usize)
        ensures
            final(self).partition_count@ == item_spec(
                PARTITION_TITLE,
                PARTITION_ICON,
                PARTITION_COLOR,
                partition_count,
            ),
            count_value(final(self).partition_count.value@) == partition_count,
            final(self).broker_count == old(self).broker_count,
            final(self).topic_count == old(self).topic_count,
            final(self).lag_count == old(self).lag_count,
    {
        self.partition_count = StatisticsItem::create_partition_count_item(partition_count);
    }

    pub fn set_lag_count(&mut self, lag_count: usize)
        ensures
            final(self).lag_count@ == item_spec(LAG_TITLE, LAG_ICON, LAG_COLOR, lag_count),
            count_value(final(self).lag_count.value@) == lag_count,
            final(self).broker_count == old(self).broker_count,
            final(self).topic_count == old(self).topic_count,
            final(self).partition_count == old(self).partition_count,
    {
        self.lag_count = StatisticsItem::create_lag_count_item(lag_count);
    }

    /// The broker count the tile shows, zero where its value is not a count.
    pub fn get_broker_count(&self) -> (r: usize)
        ensures
            r == count_value(self.broker_count.value@),
    {
        count_from_str(self.broker_count.value.as_str())
    }

    /// The topic count the tile shows, zero where its value is not a count.
    pub fn get_topic_count(&self) -> (r: usize)
        ensures
            r == count_value(self.topic_count.value@),
    {
        count_from_str(self.topic_count.value.as_str())
    }

    /// The partition count the tile shows, zero where its value is not a count.
    pub fn get_partition_count(&self) -> (r: usize)
        ensures
            r == count_value(self.partition_count.value@),
    {
        count_from_str(self.partition_count.value.as_str())
    }

    /// The total lag the tile shows, zero where its value is not a count.
    pub fn get_lag_count(&self) -> (r: usize)
        ensures
            r == count_value(self.lag_count.value@),
    {
        count_from_str(self.lag_count.value.as_str())
    }
}

} // verus!
