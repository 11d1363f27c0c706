use sysmon::processes::{sort_by_memory_desc, top_processes, ProcessInfo, DEFAULT_PROCESS_COUNT};

fn process(pid: u32, memory: u64) -> ProcessInfo {
    ProcessInfo {
        pid,
        name: format!("proc{}", pid),
        cpu_usage: 0,
        memory,
        status: "Run".to_string(),
    }
}

#[test]
fn top_fifteen_of_twenty_strictly_descending() {
    let memories: [u64; 20] = [
        7, 300, 42, 99, 1000, 5, 64, 128, 777, 3, 550, 12, 8, 640, 256, 31, 2048, 17, 400, 90,
    ];
    let procs: Vec<ProcessInfo> = memories
        .iter()
        .enumerate()
        .map(|(i, m)| process(i as u32, *m))
        .collect();
    let top = top_processes(procs, DEFAULT_PROCESS_COUNT);
    assert_eq!(top.len(), 15);
    for w in top.windows(2) {
        assert!(w[0].memory > w[1].memory);
    }
    let mut sorted = memories.to_vec();
    sorted.sort_unstable_by(|a, b| b.cmp(a));
    let got: Vec<u64> = top.iter().map(|p| p.memory).collect();
    assert_eq!(got, sorted[..15].to_vec());
    assert_eq!(top[0].pid, 16);
}

#[test]
fn top_of_fewer_than_count_keeps_all() {
    let top = top_processes(vec![process(1, 10), process(2, 30), process(3, 20)], 15);
    let pids: Vec<u32> = top.iter().map(|p| p.pid).collect();
    assert_eq!(pids, vec![2, 3, 1]);
}

#[test]
fn top_of_empty_and_of_zero() {
    assert!(top_processes(Vec::new(), 15).is_empty());
    assert!(top_processes(vec![process(1, 10)], 0).is_empty());
}

#[test]
fn sort_keeps_equal_memory_in_input_order() {
    let sorted = sort_by_memory_desc(vec![
        process(1, 10),
        process(2, 50),
        process(3, 10),
        process(4, 50),
    ]);
    let pids: Vec<u32> = sorted.iter().map(|p| p.pid).collect();
    assert_eq!(pids, vec![2, 4, 1, 3]);
}
