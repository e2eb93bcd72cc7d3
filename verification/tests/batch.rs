use redisson_rs::command::command_args::command_args;
use redisson_rs::command::command_batch::{
    into_wire, route_results, split_batch, BatchEntry, BatchQueue, KeyRouting, WireArg,
};
use redisson_rs::command::commands::{
    del_command, exists_command, get_command, hexists_command, pttl_command, set_command, strlen_command,
};
use redisson_rs::command::redis_command::RedisCommand;

fn show(args: &[WireArg<i64>]) -> Vec<String> {
    args.iter()
        .map(|a| match a {
            WireArg::Text(s) => format!("t:{}", s),
            WireArg::Value(v) => format!("v:{}", v),
        })
        .collect()
}

#[test]
fn command_names() {
    assert_eq!(exists_command().name(), "EXISTS");
    assert_eq!(hexists_command().name(), "HEXISTS");
    assert_eq!(pttl_command().name(), "PTTL");
    assert_eq!(del_command().name(), "DEL");
    assert_eq!(get_command().name(), "GET");
    assert_eq!(set_command().name(), "SET");
    assert_eq!(strlen_command().name(), "STRLEN");
    let c: RedisCommand<u8> = RedisCommand::new("HGET");
    assert_eq!(c.name(), "HGET");
}

#[test]
fn command_args_put_the_key_first() {
    assert_eq!(command_args(Some(1), 0, vec![2, 3]), vec![1, 2, 3]);
    assert_eq!(command_args(None, 0, vec![2, 3]), vec![0, 2, 3]);
    assert_eq!(command_args(Some(9), 0, vec![]), vec![9]);
}

#[test]
fn plain_command_on_the_wire() {
    let (w, tx) = into_wire(BatchEntry::Command { cmd_name: "SET", key: "k".to_string(), args: vec![5, 6], tx: 'a' });
    assert_eq!(w.name, "SET");
    assert_eq!(w.routing, KeyRouting::FirstKey);
    assert_eq!(show(&w.args), vec!["t:k", "v:5", "v:6"]);
    assert_eq!(tx, 'a');
}

#[test]
fn script_on_the_wire() {
    let (w, tx) = into_wire(BatchEntry::Eval {
        script: "return 1".to_string(),
        keys: vec!["k1".to_string(), "k2".to_string()],
        args: vec![7],
        tx: 'b',
    });
    assert_eq!(w.name, "EVAL");
    assert_eq!(w.routing, KeyRouting::Random);
    assert_eq!(show(&w.args), vec!["t:return 1", "t:2", "t:k1", "t:k2", "v:7"]);
    assert_eq!(tx, 'b');
}

#[test]
fn queue_takes_everything_in_order() {
    let mut q: BatchQueue<i64, u32> = BatchQueue::new();
    assert!(q.is_empty());
    q.push_command("GET", "a".to_string(), vec![], 1);
    q.push_eval("s".to_string(), vec!["b".to_string()], vec![3], 2);
    q.push_command("DEL", "c".to_string(), vec![], 3);
    assert_eq!(q.len(), 3);
    let entries = q.take_all();
    assert!(q.is_empty());
    let (wires, slots) = split_batch(entries);
    assert_eq!(slots, vec![1, 2, 3]);
    let names: Vec<&str> = wires.iter().map(|w| w.name).collect();
    assert_eq!(names, vec!["GET", "EVAL", "DEL"]);
    assert_eq!(show(&wires[1].args), vec!["t:s", "t:1", "t:b", "v:3"]);
}

#[test]
fn results_go_to_their_slots() {
    assert_eq!(route_results(vec![1, 2, 3], vec!["x", "y", "z"]), vec![(1, "x"), (2, "y"), (3, "z")]);
    assert_eq!(route_results(vec![1, 2, 3], vec!["x"]), vec![(1, "x")]);
    assert_eq!(route_results(vec![1], vec!["x", "y"]), vec![(1, "x")]);
    assert_eq!(route_results(Vec::<u8>::new(), vec!["x"]), vec![]);
}
