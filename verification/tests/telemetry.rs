use agent::telemetry::{largest_disk, network_bytes, DiskSpace, NetworkCount, Share};

#[test]
fn largest_disk_counts() {
    let disks = vec![
        DiskSpace { total: 0, available: 9 },
        DiskSpace { total: 100, available: 40 },
        DiskSpace { total: 500, available: 125 },
        DiskSpace { total: 500, available: 0 },
        DiskSpace { total: 10, available: 99 },
    ];
    assert_eq!(largest_disk(&disks), Some(Share { used: 375, total: 500 }));
    assert_eq!(largest_disk(&vec![]), None);
    assert_eq!(largest_disk(&vec![DiskSpace { total: 0, available: 0 }]), None);
}

#[test]
fn network_bytes_are_summed() {
    let counts = vec![
        NetworkCount { received: 1, transmitted: 2 },
        NetworkCount { received: 30, transmitted: 400 },
    ];
    assert_eq!(network_bytes(&counts), 433);
    assert_eq!(network_bytes(&vec![]), 0);
}
