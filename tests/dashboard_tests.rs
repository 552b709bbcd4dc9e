use easy_kafka::dashboard::{DashboardStatistics, StatisticsItem};
use easy_kafka::decimal::{count_from_str, count_to_string};
use easy_kafka::stats::StatisticsSnapshot;

#[test]
fn decimal_formatting() {
    assert_eq!(count_to_string(0), "0");
    assert_eq!(count_to_string(7), "7");
    assert_eq!(count_to_string(1234), "1234");
    assert_eq!(count_to_string(u64::MAX), "18446744073709551615");
}

#[test]
fn decimal_parsing() {
    assert_eq!(count_from_str("0"), 0);
    assert_eq!(count_from_str("1234"), 1234);
    assert_eq!(count_from_str("+12"), 12);
    assert_eq!(count_from_str(""), 0);
    assert_eq!(count_from_str("+"), 0);
    assert_eq!(count_from_str("-3"), 0);
    assert_eq!(count_from_str("12a"), 0);
    assert_eq!(count_from_str(&usize::MAX.to_string()), usize::MAX);
    assert_eq!(count_from_str("99999999999999999999999"), 0);
}

#[test]
fn items_carry_caption_and_value() {
    let b = StatisticsItem::create_broker_count_item(3);
    assert_eq!((b.title.as_str(), b.value.as_str(), b.icon.as_str(), b.color.as_str()), ("Broker数量", "3", "Connection", "#409EFF"));
    let t = StatisticsItem::create_topic_count_item(12);
    assert_eq!((t.title.as_str(), t.value.as_str(), t.icon.as_str(), t.color.as_str()), ("Topic总数", "12", "Document", "#67C23A"));
    let p = StatisticsItem::create_partition_count_item(40);
    assert_eq!((p.title.as_str(), p.value.as_str(), p.icon.as_str(), p.color.as_str()), ("分区总数", "40", "Partition", "#E6A23C"));
    let l = StatisticsItem::create_lag_count_item(60);
    assert_eq!((l.title.as_str(), l.value.as_str(), l.icon.as_str(), l.color.as_str()), ("分区总偏移量", "60", "Partition", "#E6A23C"));
}

#[test]
fn setters_and_getters_agree() {
    let mut d = DashboardStatistics::default();
    assert_eq!(d.get_broker_count(), 0);
    assert_eq!(d.get_lag_count(), 0);
    d.set_broker_count(3);
    d.set_topic_count(5);
    d.set_partition_count(11);
    d.set_lag_count(usize::MAX);
    assert_eq!(d.get_broker_count(), 3);
    assert_eq!(d.get_topic_count(), 5);
    assert_eq!(d.get_partition_count(), 11);
    assert_eq!(d.get_lag_count(), usize::MAX);
}

#[test]
fn getter_on_unreadable_value_is_zero() {
    let mut d = DashboardStatistics::default();
    d.topic_count.value = "many".to_string();
    assert_eq!(d.get_topic_count(), 0);
}

#[test]
fn dashboard_from_snapshot() {
    let d = DashboardStatistics::from_snapshot(&StatisticsSnapshot {
        broker_count: 1,
        topic_count: 2,
        partition_count: 2,
        total_lag: 60,
    });
    assert_eq!(d.lag_count.value, "60");
    assert_eq!(d.get_partition_count(), 2);
    assert_eq!(d.get_topic_count(), 2);
    assert_eq!(d.get_broker_count(), 1);
}
