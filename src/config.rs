use vstd::prelude::*;
use vstd::string::StringExecFns;

verus! {

/// What the dashboard knows of one broker cluster.
#[derive(Clone, Debug)]
pub struct ClusterConfig {
    pub cluster_id: Option<String>,
    pub broker_list: Vec<String>,
    pub zookeeper: String,
    pub jolokia_port: Option<i32>,
    pub graph_url: Option<String>,
    pub enable_tailing: bool,
    pub show_zk_reassignments: bool,
}

/// Texts joined with a comma between each two.
pub open spec fn comma_joined(parts: Seq<Seq<char>>) -> Seq<char>
    decreases parts.len(),
{
    if parts.len() == 0 {
        Seq::empty()
    } else if parts.len() == 1 {
        parts[0]
    } else {
        comma_joined(parts.drop_last()) + seq![','] + parts.last()
    }
}

impl ClusterConfig {
    /// The broker addresses as text.
    pub open spec fn brokers(&self) -> Seq<Seq<char>> {
        self.broker_list@.map_values(|b: String| b@)
    }

    /// The broker list in the form a client expects: the addresses joined by commas.
    pub fn bootstrap_servers(&self) -> (r: String)
        ensures
            r@ == comma_joined(self.brokers()),
    {
        let mut out = String::new();
        let mut i: usize = 0;
        while i < self.broker_list.len()
            invariant
                i <= self.broker_list@.len(),
                out@ == comma_joined(self.brokers().subrange(0, i as int)),
            decreases self.broker_list@.len() - i,
        {
            proof {
                reveal_strlit(",");
                let next = self.brokers().subrange(0, i as int + 1);
                assert(next.drop_last() =~= self.brokers().subrange(0, i as int));
                if i == 0 {
                    assert(self.brokers().subrange(0, 0) =~= Seq::<Seq<char>>::empty());
                }
            }
            if i > 0 {
                out.append(",");
            }
            out.append(self.broker_list[i].as_str());
            i += 1;
        }
        proof {
            assert(self.brokers().subrange(0, i as int) =~= self.brokers());
        }
        out
    }
}

} // verus!
