use vstd::prelude::*;

use crate::text::{join, join3};

verus! {

/// The topic on which one device receives messages meant for it alone.
pub open spec fn individual_topic(topic: Seq<char>, device_id: Seq<char>) -> Seq<char> {
    topic + seq!['/'] + device_id
}

/// The topic shared by all devices whose id starts with the same character.
pub open spec fn row_topic(topic: Seq<char>, device_id: Seq<char>) -> Seq<char>
    recommends
        device_id.len() >= 2,
{
    topic + seq!['/', device_id[0]]
}

/// The topic shared by all devices whose id has the same second character.
pub open spec fn column_topic(topic: Seq<char>, device_id: Seq<char>) -> Seq<char>
    recommends
        device_id.len() >= 2,
{
    topic + seq!['/', device_id[1]]
}

/// The topic on which a device publishes its answers.
pub open spec fn answer_topic(topic: Seq<char>, device_id: Seq<char>) -> Seq<char> {
    topic + "/answer/"@ + device_id
}

/// The four topics a device subscribes to for one logical topic.
pub open spec fn receive_topics(topic: Seq<char>, device_id: Seq<char>) -> Seq<Seq<char>> {
    seq![
        individual_topic(topic, device_id),
        column_topic(topic, device_id),
        row_topic(topic, device_id),
        topic,
    ]
}

/// Whether an inbound topic is the global or the individual topic of a device.
pub open spec fn topic_matches(inbound: Seq<char>, topic: Seq<char>, device_id: Seq<char>) -> bool {
    inbound == topic || inbound == individual_topic(topic, device_id)
}

/// Gets the individual receive topic from the global topic and the device id.
pub fn get_individual_receive_topic(topic: &str, pi_zero_id: &str) -> (r: String)
    ensures
        r@ == individual_topic(topic@, pi_zero_id@),
{
    proof {
        reveal_strlit("/");
    }
    join3(topic, "/", pi_zero_id)
}

/// Gets the column receive topic from the global topic and the device id.
pub fn get_column_receive_topic(topic: &str, pi_zero_id: &str) -> (r: String)
    requires
        pi_zero_id@.len() >= 2,
    ensures
        r@ == column_topic(topic@, pi_zero_id@),
{
    proof {
        reveal_strlit("/");
    }
    let key = pi_zero_id.substring_char(1, 2);
    let r = join3(topic, "/", key);
    assert(r@ =~= column_topic(topic@, pi_zero_id@));
    r
}

/// Gets the row receive topic from the global topic and the device id.
pub fn get_row_receive_topic(topic: &str, pi_zero_id: &str) -> (r: String)
    requires
        pi_zero_id@.len() >= 2,
    ensures
        r@ == row_topic(topic@, pi_zero_id@),
{
    proof {
        reveal_strlit("/");
    }
    let key = pi_zero_id.substring_char(0, 1);
    let r = join3(topic, "/", key);
    assert(r@ =~= row_topic(topic@, pi_zero_id@));
    r
}

/// Gets the individual topic for sending answers from the global topic and the device id.
pub fn get_individual_send_topic(topic: &str, pi_zero_id: &str) -> (r: String)
    ensures
        r@ == answer_topic(topic@, pi_zero_id@),
{
    join3(topic, "/answer/", pi_zero_id)
}

/// All four receive topics of a logical topic, individual first and global last.
pub fn get_receive_topics(topic: &str, pi_zero_id: &str) -> (r: Vec<String>)
    requires
        pi_zero_id@.len() >= 2,
    ensures
        r@.len() == 4,
        forall|i: int| 0 <= i < 4 ==> #[trigger] r@[i]@ == receive_topics(topic@, pi_zero_id@)[i],
{
    let mut r: Vec<String> = Vec::new();
    r.push(get_individual_receive_topic(topic, pi_zero_id));
    r.push(get_column_receive_topic(topic, pi_zero_id));
    r.push(get_row_receive_topic(topic, pi_zero_id));
    r.push(String::from_str(topic));
    r
}

/// An inbound message: its concrete topic and its raw payload.
pub struct Publish {
    pub topic: String,
    pub payload: Vec<u8>,
}

impl Publish {
    /// Whether the message came on the global topic or on the device's individual topic.
    pub fn is_global_or_individual(&self, topic: &str, pi_zero_id: &str) -> (r: bool)
        ensures
            r == topic_matches(self.topic@, topic@, pi_zero_id@),
    {
        topic_is_global_or_individual(&self.topic, topic, pi_zero_id)
    }
}

/// Whether `inbound` is the global topic or the device's individual topic.
pub fn topic_is_global_or_individual(inbound: &String, topic: &str, pi_zero_id: &str) -> (r: bool)
    ensures
        r == topic_matches(inbound@, topic@, pi_zero_id@),
{
    if *inbound == String::from_str(topic) {
        return true;
    }
    // The individual topic is only built when the global one did not match.
    let individual = get_individual_receive_topic(topic, pi_zero_id);
    *inbound == individual
}

/// A device's individual topic matches it, and never matches another device.
pub proof fn lemma_individual_topic_matches_only_its_device(
    topic: Seq<char>,
    device: Seq<char>,
    other: Seq<char>,
)
    ensures
        topic_matches(individual_topic(topic, device), topic, device),
        other != device ==> !topic_matches(individual_topic(topic, other), topic, device),
{
    let mine = individual_topic(topic, device);
    let theirs = individual_topic(topic, other);
    if other != device {
        assert(theirs.len() > topic.len());
        if theirs == mine {
            assert(theirs.len() == mine.len());
            assert forall|i: int| 0 <= i < other.len() implies other[i] == device[i] by {
                assert(theirs[topic.len() + 1 + i] == other[i]);
                assert(mine[topic.len() + 1 + i] == device[i]);
            }
            assert(other =~= device);
        }
    }
}

} // verus!
