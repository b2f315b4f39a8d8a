//! No two tests of the table share a name.
//!
//! A few letters of a name and its length tell which row of the table it can belong to. Two rows
//! with the same name would be told apart by nothing, so there are none.

use crate::catalog::{
    catalog, compaction_tests, contract_suite_10_tests, contract_suite_11_tests,
    contract_suite_1_tests, contract_suite_2_tests, contract_suite_3_tests, contract_suite_4_tests,
    contract_suite_5_tests, contract_suite_6_tests, contract_suite_7_tests, contract_suite_8_tests,
    contract_suite_9_tests, core_tests, correctness_tests, debug_tests, durability_tests,
    edge_tests, election_tests, fencing_tests, invariant_tests, metamorphic_tests, operations_tests,
    performance_tests, replication_tests, reproducers_tests, reproductions_tests, schema_tests,
    security_tests,
};
use crate::registry::Entry;
use vstd::prelude::*;

verus! {

/// The letter at position `i` of a name, as a number; 0 behind its end.
pub open spec fn letter(name: Seq<char>, i: int) -> int {
    if i < name.len() {
        name[i] as int
    } else {
        0
    }
}

/// A number that differs from row to row.
pub open spec fn mark(name: Seq<char>) -> int {
    name.len() + 3 * letter(name, 1) + 121 * letter(name, 12) + 31 * letter(name, 16)
}

/// The row of the table whose name has this mark, where there is one.
pub open spec fn row_of(m: int) -> int {
    if m < 16078 {
        if m < 15396 {
            if m < 14815 {
                if m < 12569 {
                    if m < 324 {
                        if m < 317 {
                            if m < 296 {
                                111
                            } else {
                                if m < 301 {
                                    83
                                } else {
                                    96
                                }
                            }
                        } else {
                            if m < 321 {
                                90
                            } else {
                                if m < 323 {
                                    82
                                } else {
                                    92
                                }
                            }
                        }
                    } else {
                        if m < 357 {
                            if m < 342 {
                                91
                            } else {
                                if m < 348 {
                                    99
                                } else {
                                    187
                                }
                            }
                        } else {
                            if m < 12145 {
                                185
                            } else {
                                if m < 12526 {
                                    179
                                } else {
                                    93
                                }
                            }
                        }
                    }
                } else {
                    if m < 14349 {
                        if m < 13235 {
                            if m < 13084 {
                                95
                            } else {
                                if m < 13116 {
                                    98
                                } else {
                                    105
                                }
                            }
                        } else {
                            if m < 14082 {
                                106
                            } else {
                                if m < 14125 {
                                    114
                                } else {
                                    148
                                }
                            }
                        }
                    } else {
                        if m < 14806 {
                            if m < 14790 {
                                186
                            } else {
                                if m < 14796 {
                                    157
                                } else {
                                    56
                                }
                            }
                        } else {
                            if m < 14807 {
                                1
                            } else {
                                if m < 14812 {
                                    16
                                } else {
                                    72
                                }
                            }
                        }
                    }
                }
            } else {
                if m < 15218 {
                    if m < 15007 {
                        if m < 14919 {
                            if m < 14842 {
                                73
                            } else {
                                if m < 14910 {
                                    74
                                } else {
                                    172
                                }
                            }
                        } else {
                            if m < 14952 {
                                180
                            } else {
                                if m < 14999 {
                                    0
                                } else {
                                    86
                                }
                            }
                        }
                    } else {
                        if m < 15136 {
                            if m < 15047 {
                                137
                            } else {
                                if m < 15057 {
                                    151
                                } else {
                                    15
                                }
                            }
                        } else {
                            if m < 15200 {
                                160
                            } else {
                                if m < 15205 {
                                    127
                                } else {
                                    184
                                }
                            }
                        }
                    }
                } else {
                    if m < 15343 {
                        if m < 15255 {
                            if m < 15230 {
                                29
                            } else {
                                if m < 15250 {
                                    19
                                } else {
                                    135
                                }
                            }
                        } else {
                            if m < 15257 {
                                163
                            } else {
                                if m < 15289 {
                                    10
                                } else {
                                    18
                                }
                            }
                        }
                    } else {
                        if m < 15356 {
                            if m < 15348 {
                                117
                            } else {
                                if m < 15351 {
                                    69
                                } else {
                                    70
                                }
                            }
                        } else {
                            if m < 15373 {
                                if m < 15359 {
                                    45
                                } else {
                                    42
                                }
                            } else {
                                if m < 15375 {
                                    104
                                } else {
                                    100
                                }
                            }
                        }
                    }
                }
            }
        } else {
            if m < 15716 {
                if m < 15508 {
                    if m < 15462 {
                        if m < 15435 {
                            if m < 15411 {
                                192
                            } else {
                                if m < 15424 {
                                    17
                                } else {
                                    189
                                }
                            }
                        } else {
                            if m < 15448 {
                                88
                            } else {
                                if m < 15461 {
                                    112
                                } else {
                                    188
                                }
                            }
                        }
                    } else {
                        if m < 15494 {
                            if m < 15480 {
                                109
                            } else {
                                if m < 15487 {
                                    140
                                } else {
                                    155
                                }
                            }
                        } else {
                            if m < 15500 {
                                177
                            } else {
                                if m < 15503 {
                                    47
                                } else {
                                    122
                                }
                            }
                        }
                    }
                } else {
                    if m < 15625 {
                        if m < 15598 {
                            if m < 15528 {
                                142
                            } else {
                                if m < 15566 {
                                    124
                                } else {
                                    78
                                }
                            }
                        } else {
                            if m < 15609 {
                                68
                            } else {
                                if m < 15618 {
                                    53
                                } else {
                                    136
                                }
                            }
                        }
                    } else {
                        if m < 15644 {
                            if m < 15626 {
                                173
                            } else {
                                if m < 15628 {
                                    171
                                } else {
                                    67
                                }
                            }
                        } else {
                            if m < 15698 {
                                if m < 15654 {
                                    195
                                } else {
                                    71
                                }
                            } else {
                                if m < 15702 {
                                    80
                                } else {
                                    156
                                }
                            }
                        }
                    }
                }
            } else {
                if m < 15922 {
                    if m < 15750 {
                        if m < 15728 {
                            if m < 15721 {
                                141
                            } else {
                                if m < 15725 {
                                    22
                                } else {
                                    196
                                }
                            }
                        } else {
                            if m < 15736 {
                                36
                            } else {
                                if m < 15749 {
                                    9
                                } else {
                                    6
                                }
                            }
                        }
                    } else {
                        if m < 15804 {
                            if m < 15761 {
                                102
                            } else {
                                if m < 15785 {
                                    30
                                } else {
                                    143
                                }
                            }
                        } else {
                            if m < 15891 {
                                14
                            } else {
                                if m < 15903 {
                                    3
                                } else {
                                    123
                                }
                            }
                        }
                    }
                } else {
                    if m < 16006 {
                        if m < 15963 {
                            if m < 15945 {
                                146
                            } else {
                                if m < 15953 {
                                    178
                                } else {
                                    182
                                }
                            }
                        } else {
                            if m < 15966 {
                                152
                            } else {
                                if m < 15975 {
                                    25
                                } else {
                                    134
                                }
                            }
                        }
                    } else {
                        if m < 16040 {
                            if m < 16023 {
                                139
                            } else {
                                if m < 16029 {
                                    168
                                } else {
                                    131
                                }
                            }
                        } else {
                            if m < 16066 {
                                if m < 16043 {
                                    76
                                } else {
                                    77
                                }
                            } else {
                                if m < 16070 {
                                    138
                                } else {
                                    94
                                }
                            }
                        }
                    }
                }
            }
        }
    } else {
        if m < 17086 {
            if m < 16556 {
                if m < 16394 {
                    if m < 16189 {
                        if m < 16106 {
                            if m < 16081 {
                                191
                            } else {
                                if m < 16105 {
                                    197
                                } else {
                                    60
                                }
                            }
                        } else {
                            if m < 16127 {
                                194
                            } else {
                                if m < 16170 {
                                    133
                                } else {
                                    158
                                }
                            }
                        }
                    } else {
                        if m < 16317 {
                            if m < 16251 {
                                8
                            } else {
                                if m < 16298 {
                                    116
                                } else {
                                    150
                                }
                            }
                        } else {
                            if m < 16330 {
                                62
                            } else {
                                if m < 16331 {
                                    84
                                } else {
                                    85
                                }
                            }
                        }
                    }
                } else {
                    if m < 16455 {
                        if m < 16409 {
                            if m < 16397 {
                                149
                            } else {
                                if m < 16406 {
                                    59
                                } else {
                                    147
                                }
                            }
                        } else {
                            if m < 16410 {
                                181
                            } else {
                                if m < 16416 {
                                    108
                                } else {
                                    27
                                }
                            }
                        }
                    } else {
                        if m < 16536 {
                            if m < 16500 {
                                40
                            } else {
                                if m < 16516 {
                                    13
                                } else {
                                    58
                                }
                            }
                        } else {
                            if m < 16544 {
                                if m < 16539 {
                                    129
                                } else {
                                    61
                                }
                            } else {
                                if m < 16549 {
                                    145
                                } else {
                                    154
                                }
                            }
                        }
                    }
                }
            } else {
                if m < 16838 {
                    if m < 16743 {
                        if m < 16620 {
                            if m < 16564 {
                                23
                            } else {
                                if m < 16574 {
                                    121
                                } else {
                                    35
                                }
                            }
                        } else {
                            if m < 16639 {
                                26
                            } else {
                                if m < 16650 {
                                    87
                                } else {
                                    113
                                }
                            }
                        }
                    } else {
                        if m < 16809 {
                            if m < 16745 {
                                81
                            } else {
                                if m < 16752 {
                                    31
                                } else {
                                    37
                                }
                            }
                        } else {
                            if m < 16826 {
                                57
                            } else {
                                if m < 16832 {
                                    46
                                } else {
                                    130
                                }
                            }
                        }
                    }
                } else {
                    if m < 16922 {
                        if m < 16860 {
                            if m < 16847 {
                                12
                            } else {
                                if m < 16855 {
                                    75
                                } else {
                                    89
                                }
                            }
                        } else {
                            if m < 16892 {
                                115
                            } else {
                                if m < 16899 {
                                    120
                                } else {
                                    55
                                }
                            }
                        }
                    } else {
                        if m < 16927 {
                            if m < 16925 {
                                126
                            } else {
                                if m < 16926 {
                                    128
                                } else {
                                    33
                                }
                            }
                        } else {
                            if m < 17028 {
                                if m < 16934 {
                                    48
                                } else {
                                    28
                                }
                            } else {
                                if m < 17070 {
                                    7
                                } else {
                                    144
                                }
                            }
                        }
                    }
                }
            }
        } else {
            if m < 17400 {
                if m < 17236 {
                    if m < 17200 {
                        if m < 17179 {
                            if m < 17097 {
                                79
                            } else {
                                if m < 17126 {
                                    11
                                } else {
                                    166
                                }
                            }
                        } else {
                            if m < 17180 {
                                34
                            } else {
                                if m < 17184 {
                                    153
                                } else {
                                    49
                                }
                            }
                        }
                    } else {
                        if m < 17223 {
                            if m < 17218 {
                                125
                            } else {
                                if m < 17219 {
                                    175
                                } else {
                                    24
                                }
                            }
                        } else {
                            if m < 17228 {
                                41
                            } else {
                                if m < 17235 {
                                    103
                                } else {
                                    159
                                }
                            }
                        }
                    }
                } else {
                    if m < 17337 {
                        if m < 17287 {
                            if m < 17246 {
                                164
                            } else {
                                if m < 17260 {
                                    165
                                } else {
                                    65
                                }
                            }
                        } else {
                            if m < 17304 {
                                32
                            } else {
                                if m < 17310 {
                                    50
                                } else {
                                    167
                                }
                            }
                        }
                    } else {
                        if m < 17369 {
                            if m < 17351 {
                                4
                            } else {
                                if m < 17363 {
                                    132
                                } else {
                                    51
                                }
                            }
                        } else {
                            if m < 17391 {
                                if m < 17371 {
                                    107
                                } else {
                                    52
                                }
                            } else {
                                if m < 17397 {
                                    198
                                } else {
                                    193
                                }
                            }
                        }
                    }
                }
            } else {
                if m < 17641 {
                    if m < 17537 {
                        if m < 17528 {
                            if m < 17426 {
                                63
                            } else {
                                if m < 17485 {
                                    44
                                } else {
                                    43
                                }
                            }
                        } else {
                            if m < 17529 {
                                101
                            } else {
                                if m < 17535 {
                                    118
                                } else {
                                    2
                                }
                            }
                        }
                    } else {
                        if m < 17569 {
                            if m < 17557 {
                                162
                            } else {
                                if m < 17568 {
                                    39
                                } else {
                                    169
                                }
                            }
                        } else {
                            if m < 17574 {
                                38
                            } else {
                                if m < 17579 {
                                    20
                                } else {
                                    21
                                }
                            }
                        }
                    }
                } else {
                    if m < 17843 {
                        if m < 17704 {
                            if m < 17678 {
                                110
                            } else {
                                if m < 17682 {
                                    174
                                } else {
                                    5
                                }
                            }
                        } else {
                            if m < 17771 {
                                54
                            } else {
                                if m < 17786 {
                                    119
                                } else {
                                    190
                                }
                            }
                        }
                    } else {
                        if m < 17984 {
                            if m < 17869 {
                                64
                            } else {
                                if m < 17980 {
                                    183
                                } else {
                                    176
                                }
                            }
                        } else {
                            if m < 17996 {
                                if m < 17992 {
                                    161
                                } else {
                                    66
                                }
                            } else {
                                if m < 18066 {
                                    97
                                } else {
                                    170
                                }
                            }
                        }
                    }
                }
            }
        }
    }
}

/// Whether the names of `rows` lead to the rows from `base` on.
pub open spec fn placed(rows: Seq<Entry>, base: int) -> bool {
    forall|i: int| 0 <= i < rows.len() ==> row_of(mark((#[trigger] rows[i]).name)) == base + i
}

proof fn lemma_both_placed(a: Seq<Entry>, b: Seq<Entry>)
    requires
        placed(a, 0),
        placed(b, a.len() as int),
    ensures
        placed(a + b, 0),
{
    assert forall|i: int| 0 <= i < (a + b).len() implies row_of(mark((#[trigger] (a + b)[i]).name))
        == i by {
        if i < a.len() {
            assert((a + b)[i] == a[i]);
        } else {
            assert((a + b)[i] == b[i - a.len()]);
        }
    }
}

proof fn lemma_contract_suite_1_tests()
    ensures
        contract_suite_1_tests().len() == 15,
        placed(contract_suite_1_tests(), 0),
{
    let rows = contract_suite_1_tests();
    reveal_strlit("p1_append_reads_back_unchanged");
    reveal_strlit("p1_reads_are_ordered_and_gap_free");
    reveal_strlit("p1_version_tracks_batch_count");
    reveal_strlit("p1_read_missing_aggregate_errors");
    reveal_strlit("p1_empty_write_rejected");
    reveal_strlit("p1_zero_event_type_rejected");
    reveal_strlit("p1_write_no_create_rejected");
    reveal_strlit("p1_pagination_streams_whole_aggregate");
    reveal_strlit("p1_offset_filter_bounds_range");
    reveal_strlit("p1_event_type_filter");
    reveal_strlit("p1_client_id_filter");
    reveal_strlit("p1_writes_survive_restart");
    reveal_strlit("p1_exclude_client_id_filter");
    reveal_strlit("p1_multi_event_batch_preserves_order");
    reveal_strlit("p1_event_time_range_filter");
    assert(mark(rows[0].name) == 14952);
    assert(mark(rows[1].name) == 14806);
    assert(mark(rows[2].name) == 17535);
    assert(mark(rows[3].name) == 15891);
    assert(mark(rows[4].name) == 17337);
    assert(mark(rows[5].name) == 17682);
    assert(mark(rows[6].name) == 15749);
    assert(mark(rows[7].name) == 17028);
    assert(mark(rows[8].name) == 16189);
    assert(mark(rows[9].name) == 15736);
    assert(mark(rows[10].name) == 15257);
    assert(mark(rows[11].name) == 17097);
    assert(mark(rows[12].name) == 16838);
    assert(mark(rows[13].name) == 16500);
    assert(mark(rows[14].name) == 15804);
}

proof fn lemma_contract_suite_2_tests()
    ensures
        contract_suite_2_tests().len() == 9,
        placed(contract_suite_2_tests(), 15),
{
    let rows = contract_suite_2_tests();
    reveal_strlit("p2_occ_match_commits_and_advances");
    reveal_strlit("p2_occ_stale_rejected_no_append");
    reveal_strlit("p2_occ_create_guard_races_cleanly");
    reveal_strlit("p2_idempotency_dedupes_replay");
    reveal_strlit("p2_idempotency_scoped_per_client");
    reveal_strlit("p2_multi_aggregate_atomic_rollback");
    reveal_strlit("p2_multi_aggregate_cross_shard_rejected");
    reveal_strlit("p2_occ_and_idempotency_compose");
    reveal_strlit("p2_unconditional_write_appends");
    assert(mark(rows[0].name) == 15057);
    assert(mark(rows[1].name) == 14807);
    assert(mark(rows[2].name) == 15411);
    assert(mark(rows[3].name) == 15289);
    assert(mark(rows[4].name) == 15230);
    assert(mark(rows[5].name) == 17574);
    assert(mark(rows[6].name) == 17579);
    assert(mark(rows[7].name) == 15721);
    assert(mark(rows[8].name) == 16556);
}

proof fn lemma_contract_suite_3_tests()
    ensures
        contract_suite_3_tests().len() == 11,
        placed(contract_suite_3_tests(), 24),
{
    let rows = contract_suite_3_tests();
    reveal_strlit("p3_trim_drops_prefix");
    reveal_strlit("p3_trim_preserves_remaining");
    reveal_strlit("p3_trim_out_of_range_rejected");
    reveal_strlit("p3_trim_missing_rejected");
    reveal_strlit("p3_delete_removes_aggregate");
    reveal_strlit("p3_delete_no_recreate_blocks_rewrite");
    reveal_strlit("p3_delete_recreate_allows_rewrite");
    reveal_strlit("p3_delete_conditional_guard");
    reveal_strlit("p3_delete_missing_rejected");
    reveal_strlit("p3_delete_sequence_continuation");
    reveal_strlit("p3_delete_cross_shard_rejected");
    assert(mark(rows[0].name) == 17219);
    assert(mark(rows[1].name) == 15966);
    assert(mark(rows[2].name) == 16620);
    assert(mark(rows[3].name) == 16416);
    assert(mark(rows[4].name) == 16934);
    assert(mark(rows[5].name) == 15218);
    assert(mark(rows[6].name) == 15761);
    assert(mark(rows[7].name) == 16745);
    assert(mark(rows[8].name) == 17287);
    assert(mark(rows[9].name) == 16926);
    assert(mark(rows[10].name) == 17179);
}

proof fn lemma_contract_suite_4_tests()
    ensures
        contract_suite_4_tests().len() == 5,
        placed(contract_suite_4_tests(), 35),
{
    let rows = contract_suite_4_tests();
    reveal_strlit("p4_schema_rejects_bad_event");
    reveal_strlit("p4_schema_accepts_good_event");
    reveal_strlit("p4_schema_duplicate_register_rejected");
    reveal_strlit("p4_schema_invalid_register_rejected");
    reveal_strlit("p4_schema_unregistered_version_unvalidated");
    assert(mark(rows[0].name) == 16574);
    assert(mark(rows[1].name) == 15728);
    assert(mark(rows[2].name) == 16752);
    assert(mark(rows[3].name) == 17569);
    assert(mark(rows[4].name) == 17557);
}

proof fn lemma_contract_suite_5_tests()
    ensures
        contract_suite_5_tests().len() == 6,
        placed(contract_suite_5_tests(), 40),
{
    let rows = contract_suite_5_tests();
    reveal_strlit("p5_watch_notifies_on_write");
    reveal_strlit("p5_watch_incompatible_filter_rejected");
    reveal_strlit("p5_watch_latency_too_high_rejected");
    reveal_strlit("p5_watch_cursor_misses_no_events");
    reveal_strlit("p5_watch_operations_are_distinct");
    reveal_strlit("p5_watch_create_notification_carries_version_range");
    assert(mark(rows[0].name) == 16455);
    assert(mark(rows[1].name) == 17223);
    assert(mark(rows[2].name) == 15359);
    assert(mark(rows[3].name) == 17485);
    assert(mark(rows[4].name) == 17426);
    assert(mark(rows[5].name) == 15356);
}

proof fn lemma_contract_suite_6_tests()
    ensures
        contract_suite_6_tests().len() == 4,
        placed(contract_suite_6_tests(), 46),
{
    let rows = contract_suite_6_tests();
    reveal_strlit("p6_cluster_elects_single_leader");
    reveal_strlit("p6_cluster_replicates_and_rejects_follower_write");
    reveal_strlit("p6_follower_read_converges");
    reveal_strlit("p6_failover_promotes_follower");
    assert(mark(rows[0].name) == 16826);
    assert(mark(rows[1].name) == 15500);
    assert(mark(rows[2].name) == 16927);
    assert(mark(rows[3].name) == 17184);
}

proof fn lemma_contract_suite_7_tests()
    ensures
        contract_suite_7_tests().len() == 5,
        placed(contract_suite_7_tests(), 50),
{
    let rows = contract_suite_7_tests();
    reveal_strlit("p7_concurrent_occ_writers_one_wins");
    reveal_strlit("p7_concurrent_creators_one_wins");
    reveal_strlit("p7_concurrent_idempotent_retries_dedupe");
    reveal_strlit("p7_per_aggregate_order_across_shards");
    reveal_strlit("p7_large_values_long_stream_intact");
    assert(mark(rows[0].name) == 17304);
    assert(mark(rows[1].name) == 17363);
    assert(mark(rows[2].name) == 17371);
    assert(mark(rows[3].name) == 15609);
    assert(mark(rows[4].name) == 17704);
}

proof fn lemma_contract_suite_8_tests()
    ensures
        contract_suite_8_tests().len() == 5,
        placed(contract_suite_8_tests(), 55),
{
    let rows = contract_suite_8_tests();
    reveal_strlit("p8_replication_link_cut_acks_via_s3_and_heals");
    reveal_strlit("p8_s3_outage_leader_keeps_serving");
    reveal_strlit("p8_crash_follower_restart_data_survives");
    reveal_strlit("p8_exactly_once_across_failover");
    reveal_strlit("p8_leader_follower_read_parity");
    assert(mark(rows[0].name) == 16899);
    assert(mark(rows[1].name) == 14796);
    assert(mark(rows[2].name) == 16809);
    assert(mark(rows[3].name) == 16516);
    assert(mark(rows[4].name) == 16397);
}

proof fn lemma_contract_suite_9_tests()
    ensures
        contract_suite_9_tests().len() == 9,
        placed(contract_suite_9_tests(), 60),
{
    let rows = contract_suite_9_tests();
    reveal_strlit("p9_mtls_require_good_client_connects");
    reveal_strlit("p9_mtls_require_untrusted_ca_refused");
    reveal_strlit("p9_mtls_require_no_cert_refused");
    reveal_strlit("p9_tls_strict_refuses_plaintext");
    reveal_strlit("p9_tls_client_auth_none_allows_anonymous");
    reveal_strlit("p9_identity_required_but_absent_rejected");
    reveal_strlit("p9_public_key_identity_accepted_and_deterministic");
    reveal_strlit("p9_identity_bad_signature_rejected");
    reveal_strlit("p9_identity_clientid_mismatch_rejected");
    assert(mark(rows[0].name) == 16105);
    assert(mark(rows[1].name) == 16539);
    assert(mark(rows[2].name) == 16317);
    assert(mark(rows[3].name) == 17400);
    assert(mark(rows[4].name) == 17843);
    assert(mark(rows[5].name) == 17260);
    assert(mark(rows[6].name) == 17992);
    assert(mark(rows[7].name) == 15628);
    assert(mark(rows[8].name) == 15598);
}

proof fn lemma_contract_suite_10_tests()
    ensures
        contract_suite_10_tests().len() == 9,
        placed(contract_suite_10_tests(), 69),
{
    let rows = contract_suite_10_tests();
    reveal_strlit("p10_avro_accepts_conforming_payload");
    reveal_strlit("p10_avro_rejects_nonconforming_payload");
    reveal_strlit("p10_avro_malformed_schema_rejected");
    reveal_strlit("p10_protobuf_accepts_conforming_payload");
    reveal_strlit("p10_protobuf_rejects_nonconforming_payload");
    reveal_strlit("p10_protobuf_malformed_schema_rejected");
    reveal_strlit("p10_avro_duplicate_register_rejected");
    reveal_strlit("p10_encrypted_payload_roundtrips_unchanged");
    reveal_strlit("p10_encrypted_payload_skips_schema_validation");
    assert(mark(rows[0].name) == 15348);
    assert(mark(rows[1].name) == 15351);
    assert(mark(rows[2].name) == 15654);
    assert(mark(rows[3].name) == 14812);
    assert(mark(rows[4].name) == 14815);
    assert(mark(rows[5].name) == 14842);
    assert(mark(rows[6].name) == 16847);
    assert(mark(rows[7].name) == 16040);
    assert(mark(rows[8].name) == 16043);
}

proof fn lemma_contract_suite_11_tests()
    ensures
        contract_suite_11_tests().len() == 4,
        placed(contract_suite_11_tests(), 78),
{
    let rows = contract_suite_11_tests();
    reveal_strlit("p11_leader_self_fences_on_lost_lease");
    reveal_strlit("p11_notleader_redirect_carries_leader_address");
    reveal_strlit("p11_throttled_link_preserves_acked_writes");
    reveal_strlit("p11_compaction_reclaims_after_trim");
    assert(mark(rows[0].name) == 15566);
    assert(mark(rows[1].name) == 17086);
    assert(mark(rows[2].name) == 15698);
    assert(mark(rows[3].name) == 16743);
}

proof fn lemma_core_tests()
    ensures
        core_tests().len() == 18,
        placed(core_tests(), 82),
{
    let rows = core_tests();
    reveal_strlit("single");
    reveal_strlit("batch");
    reveal_strlit("batch_standalone_cleartext");
    reveal_strlit("batch_standalone_compressed");
    reveal_strlit("batch_replicated_cleartext");
    reveal_strlit("read_list_benchmark");
    reveal_strlit("rpi_cluster_bench");
    reveal_strlit("rpi_cluster_pool_bench");
    reveal_strlit("chaos");
    reveal_strlit("chaos_delete");
    reveal_strlit("chaos_watch");
    reveal_strlit("watch_failover");
    reveal_strlit("watch_follower_promotion");
    reveal_strlit("connection_test");
    reveal_strlit("watch_test");
    reveal_strlit("multi_shard_watch_test");
    reveal_strlit("typed_operations");
    reveal_strlit("pool_test");
    assert(mark(rows[0].name) == 321);
    assert(mark(rows[1].name) == 296);
    assert(mark(rows[2].name) == 16330);
    assert(mark(rows[3].name) == 16331);
    assert(mark(rows[4].name) == 14999);
    assert(mark(rows[5].name) == 16639);
    assert(mark(rows[6].name) == 15435);
    assert(mark(rows[7].name) == 16855);
    assert(mark(rows[8].name) == 317);
    assert(mark(rows[9].name) == 324);
    assert(mark(rows[10].name) == 323);
    assert(mark(rows[11].name) == 12526);
    assert(mark(rows[12].name) == 16070);
    assert(mark(rows[13].name) == 12569);
    assert(mark(rows[14].name) == 301);
    assert(mark(rows[15].name) == 17996);
    assert(mark(rows[16].name) == 13084);
    assert(mark(rows[17].name) == 342);
}

proof fn lemma_replication_tests()
    ensures
        replication_tests().len() == 11,
        placed(replication_tests(), 100),
{
    let rows = replication_tests();
    reveal_strlit("s3_fallback_catchup");
    reveal_strlit("s3_fallback_s3_down");
    reveal_strlit("s3_fallback_createonly");
    reveal_strlit("s3_degraded_segment_summaries");
    reveal_strlit("s3_follower_crash");
    reveal_strlit("s3_follower_kick");
    reveal_strlit("s3_leader_solo");
    reveal_strlit("standalone_to_distributed");
    reveal_strlit("follower_notify_liveness");
    reveal_strlit("follower_read_snapshot");
    reveal_strlit("leader_read_visibility");
    assert(mark(rows[0].name) == 15375);
    assert(mark(rows[1].name) == 17528);
    assert(mark(rows[2].name) == 15750);
    assert(mark(rows[3].name) == 17228);
    assert(mark(rows[4].name) == 15373);
    assert(mark(rows[5].name) == 13116);
    assert(mark(rows[6].name) == 13235);
    assert(mark(rows[7].name) == 17369);
    assert(mark(rows[8].name) == 16410);
    assert(mark(rows[9].name) == 15462);
    assert(mark(rows[10].name) == 17641);
}

proof fn lemma_election_tests()
    ensures
        election_tests().len() == 7,
        placed(election_tests(), 111),
{
    let rows = election_tests();
    reveal_strlit("s3_election");
    reveal_strlit("s3_failover_and_recovery");
    reveal_strlit("s3_failover_latency");
    reveal_strlit("s3_stale_lease");
    reveal_strlit("s3_lease_monotonicity");
    reveal_strlit("s3_unreachable_failover");
    reveal_strlit("s3_lease_renewal_backoff");
    assert(mark(rows[0].name) == 164);
    assert(mark(rows[1].name) == 15448);
    assert(mark(rows[2].name) == 16650);
    assert(mark(rows[3].name) == 14082);
    assert(mark(rows[4].name) == 16860);
    assert(mark(rows[5].name) == 16251);
    assert(mark(rows[6].name) == 15343);
}

proof fn lemma_fencing_tests()
    ensures
        fencing_tests().len() == 2,
        placed(fencing_tests(), 118),
{
    let rows = fencing_tests();
    reveal_strlit("s3_fencing_writes");
    reveal_strlit("s3_concurrent_cas");
    assert(mark(rows[0].name) == 17529);
    assert(mark(rows[1].name) == 17771);
}

proof fn lemma_invariant_tests()
    ensures
        invariant_tests().len() == 9,
        placed(invariant_tests(), 120),
{
    let rows = invariant_tests();
    reveal_strlit("invariant_clock_drift_rejection");
    reveal_strlit("invariant_held_seq_sibling_recovery");
    reveal_strlit("invariant_occ_before_idempotency");
    reveal_strlit("reference_account_service");
    reveal_strlit("invariant_read_count");
    reveal_strlit("invariant_concurrent_write");
    reveal_strlit("invariant_replication_convergence");
    reveal_strlit("invariant_s3_fallback_dedup");
    reveal_strlit("invariant_replication_queue_pressure");
    assert(mark(rows[0].name) == 16892);
    assert(mark(rows[1].name) == 16564);
    assert(mark(rows[2].name) == 15503);
    assert(mark(rows[3].name) == 15903);
    assert(mark(rows[4].name) == 15528);
    assert(mark(rows[5].name) == 17200);
    assert(mark(rows[6].name) == 16922);
    assert(mark(rows[7].name) == 15200);
    assert(mark(rows[8].name) == 16925);
}

proof fn lemma_metamorphic_tests()
    ensures
        metamorphic_tests().len() == 7,
        placed(metamorphic_tests(), 129),
{
    let rows = metamorphic_tests();
    reveal_strlit("metamorphic_leader_follower_parity");
    reveal_strlit("metamorphic_post_failover_parity");
    reveal_strlit("metamorphic_delete_trim_parity");
    reveal_strlit("metamorphic_standalone_vs_cluster");
    reveal_strlit("metamorphic_follower_crash_catchup_parity");
    reveal_strlit("metamorphic_divergence_recovery_parity");
    reveal_strlit("metamorphic_cull_parity");
    assert(mark(rows[0].name) == 16536);
    assert(mark(rows[1].name) == 16832);
    assert(mark(rows[2].name) == 16029);
    assert(mark(rows[3].name) == 17351);
    assert(mark(rows[4].name) == 16127);
    assert(mark(rows[5].name) == 15975);
    assert(mark(rows[6].name) == 15250);
}

proof fn lemma_edge_tests()
    ensures
        edge_tests().len() == 17,
        placed(edge_tests(), 136),
{
    let rows = edge_tests();
    reveal_strlit("edge_empty_replication_batch");
    reveal_strlit("edge_stale_cache_rotation");
    reveal_strlit("edge_s3_missing_batches");
    reveal_strlit("edge_s3_batch_ordering");
    reveal_strlit("edge_log_rotation_mid_replication");
    reveal_strlit("edge_log_eviction_before_s3");
    reveal_strlit("edge_heartbeat_lock_contention");
    reveal_strlit("edge_concurrent_heartbeat_replication_s3");
    reveal_strlit("edge_split_brain_s3_unavailable");
    reveal_strlit("edge_s3_batch_boundary_contiguity");
    reveal_strlit("edge_s3_catchup_after_partition");
    reveal_strlit("edge_s3_overlap_after_partition");
    reveal_strlit("edge_corrupted_s3_batch");
    reveal_strlit("edge_list_pagination_cache_eviction");
    reveal_strlit("regression_list_iterator_truncation");
    reveal_strlit("edge_wal_tip_hash_divergence");
    reveal_strlit("edge_wal_divergence_and_recovery");
    assert(mark(rows[0].name) == 15618);
    assert(mark(rows[1].name) == 15007);
    assert(mark(rows[2].name) == 16066);
    assert(mark(rows[3].name) == 16006);
    assert(mark(rows[4].name) == 15480);
    assert(mark(rows[5].name) == 15716);
    assert(mark(rows[6].name) == 15508);
    assert(mark(rows[7].name) == 15785);
    assert(mark(rows[8].name) == 17070);
    assert(mark(rows[9].name) == 16544);
    assert(mark(rows[10].name) == 15922);
    assert(mark(rows[11].name) == 16406);
    assert(mark(rows[12].name) == 14125);
    assert(mark(rows[13].name) == 16394);
    assert(mark(rows[14].name) == 16298);
    assert(mark(rows[15].name) == 15047);
    assert(mark(rows[16].name) == 15963);
}

proof fn lemma_reproducers_tests()
    ensures
        reproducers_tests().len() == 1,
        placed(reproducers_tests(), 153),
{
    let rows = reproducers_tests();
    reveal_strlit("stale_lease_restart_split_brain");
    assert(mark(rows[0].name) == 17180);
}

proof fn lemma_correctness_tests()
    ensures
        correctness_tests().len() == 7,
        placed(correctness_tests(), 154),
{
    let rows = correctness_tests();
    reveal_strlit("p1_1_dcb_rollback");
    reveal_strlit("p1_2_concurrent_dcb");
    reveal_strlit("p1_3_cross_shard_rejection");
    reveal_strlit("p1_4_exactly_once");
    reveal_strlit("p1_6_ordering_verification");
    reveal_strlit("p1_7_multitenancy_isolation");
    reveal_strlit("segment_summary_correctness");
    assert(mark(rows[0].name) == 16549);
    assert(mark(rows[1].name) == 15487);
    assert(mark(rows[2].name) == 15702);
    assert(mark(rows[3].name) == 14790);
    assert(mark(rows[4].name) == 16170);
    assert(mark(rows[5].name) == 17235);
    assert(mark(rows[6].name) == 15136);
}

proof fn lemma_durability_tests()
    ensures
        durability_tests().len() == 19,
        placed(durability_tests(), 161),
{
    let rows = durability_tests();
    reveal_strlit("p2_1_write_survival");
    reveal_strlit("p2_5_blackout_acked_writes_survive");
    reveal_strlit("idempotency_cold_reconstruction");
    reveal_strlit("idempotency_negative_scan_load");
    reveal_strlit("idempotency_negative_scan_present_client");
    reveal_strlit("idempotency_restart_fanin");
    reveal_strlit("idempotency_trim_client_state");
    reveal_strlit("idempotency_delete_recreate");
    reveal_strlit("recovery_multiseg_read_amplification");
    reveal_strlit("crash_kill9_under_load_durability");
    reveal_strlit("schema_sealed_segment_survives_crash");
    reveal_strlit("sidecar_size_tracks_cardinality");
    reveal_strlit("idempotency_across_seal");
    reveal_strlit("p2_2_dual_restart");
    reveal_strlit("p2_3_wal_corruption");
    reveal_strlit("storage_corruption_header_recovery");
    reveal_strlit("wal_mid_datablock_truncation");
    reveal_strlit("s3_to_tcp_failback");
    reveal_strlit("p2_4_s3_capacity");
    assert(mark(rows[0].name) == 17984);
    assert(mark(rows[1].name) == 17537);
    assert(mark(rows[2].name) == 15255);
    assert(mark(rows[3].name) == 17236);
    assert(mark(rows[4].name) == 17246);
    assert(mark(rows[5].name) == 17126);
    assert(mark(rows[6].name) == 17310);
    assert(mark(rows[7].name) == 16023);
    assert(mark(rows[8].name) == 17568);
    assert(mark(rows[9].name) == 18066);
    assert(mark(rows[10].name) == 15626);
    assert(mark(rows[11].name) == 14910);
    assert(mark(rows[12].name) == 15625);
    assert(mark(rows[13].name) == 17678);
    assert(mark(rows[14].name) == 17218);
    assert(mark(rows[15].name) == 17980);
    assert(mark(rows[16].name) == 15494);
    assert(mark(rows[17].name) == 15945);
    assert(mark(rows[18].name) == 12145);
}

proof fn lemma_performance_tests()
    ensures
        performance_tests().len() == 4,
        placed(performance_tests(), 180),
{
    let rows = performance_tests();
    reveal_strlit("p3_1_cold_read_latency");
    reveal_strlit("p3_2_bloom_filter");
    reveal_strlit("p3_3_sequential_cold_reads");
    reveal_strlit("p3_4_read_thundering_herd");
    assert(mark(rows[0].name) == 14919);
    assert(mark(rows[1].name) == 16409);
    assert(mark(rows[2].name) == 15953);
    assert(mark(rows[3].name) == 17869);
}

proof fn lemma_operations_tests()
    ensures
        operations_tests().len() == 1,
        placed(operations_tests(), 184),
{
    let rows = operations_tests();
    reveal_strlit("p4_1_rolling_upgrade");
    assert(mark(rows[0].name) == 15205);
}

proof fn lemma_security_tests()
    ensures
        security_tests().len() == 3,
        placed(security_tests(), 185),
{
    let rows = security_tests();
    reveal_strlit("mtls_test");
    reveal_strlit("identity_test");
    reveal_strlit("api_key_test");
    assert(mark(rows[0].name) == 357);
    assert(mark(rows[1].name) == 14349);
    assert(mark(rows[2].name) == 348);
}

proof fn lemma_schema_tests()
    ensures
        schema_tests().len() == 5,
        placed(schema_tests(), 188),
{
    let rows = schema_tests();
    reveal_strlit("schema_validation");
    reveal_strlit("schema_zero_cache");
    reveal_strlit("schema_follower_crash");
    reveal_strlit("schema_old_leader_recovery");
    reveal_strlit("schema_bank_bench");
    assert(mark(rows[0].name) == 15461);
    assert(mark(rows[1].name) == 15424);
    assert(mark(rows[2].name) == 17786);
    assert(mark(rows[3].name) == 16078);
    assert(mark(rows[4].name) == 15396);
}

proof fn lemma_compaction_tests()
    ensures
        compaction_tests().len() == 3,
        placed(compaction_tests(), 193),
{
    let rows = compaction_tests();
    reveal_strlit("compaction_standalone");
    reveal_strlit("compaction_restart");
    reveal_strlit("compaction_replicated");
    assert(mark(rows[0].name) == 17397);
    assert(mark(rows[1].name) == 16106);
    assert(mark(rows[2].name) == 15644);
}

proof fn lemma_reproductions_tests()
    ensures
        reproductions_tests().len() == 1,
        placed(reproductions_tests(), 196),
{
    let rows = reproductions_tests();
    reveal_strlit("bug_kick_after_restart");
    assert(mark(rows[0].name) == 15725);
}

proof fn lemma_debug_tests()
    ensures
        debug_tests().len() == 2,
        placed(debug_tests(), 197),
{
    let rows = debug_tests();
    reveal_strlit("debug_follower_pressure");
    reveal_strlit("debug_demotion_cull_acked_loss");
    assert(mark(rows[0].name) == 16081);
    assert(mark(rows[1].name) == 17391);
}

/// No two tests of the table share a name.
pub proof fn names_differ(i: int, j: int)
    requires
        0 <= i < j < catalog().len(),
    ensures
        catalog()[i].name != catalog()[j].name,
{
    lemma_contract_suite_1_tests();
    lemma_contract_suite_2_tests();
    lemma_contract_suite_3_tests();
    lemma_contract_suite_4_tests();
    lemma_contract_suite_5_tests();
    lemma_contract_suite_6_tests();
    lemma_contract_suite_7_tests();
    lemma_contract_suite_8_tests();
    lemma_contract_suite_9_tests();
    lemma_contract_suite_10_tests();
    lemma_contract_suite_11_tests();
    lemma_core_tests();
    lemma_replication_tests();
    lemma_election_tests();
    lemma_fencing_tests();
    lemma_invariant_tests();
    lemma_metamorphic_tests();
    lemma_edge_tests();
    lemma_reproducers_tests();
    lemma_correctness_tests();
    lemma_durability_tests();
    lemma_performance_tests();
    lemma_operations_tests();
    lemma_security_tests();
    lemma_schema_tests();
    lemma_compaction_tests();
    lemma_reproductions_tests();
    lemma_debug_tests();
    let rows = contract_suite_1_tests();
    lemma_both_placed(rows, contract_suite_2_tests());
    let rows = rows + contract_suite_2_tests();
    lemma_both_placed(rows, contract_suite_3_tests());
    let rows = rows + contract_suite_3_tests();
    lemma_both_placed(rows, contract_suite_4_tests());
    let rows = rows + contract_suite_4_tests();
    lemma_both_placed(rows, contract_suite_5_tests());
    let rows = rows + contract_suite_5_tests();
    lemma_both_placed(rows, contract_suite_6_tests());
    let rows = rows + contract_suite_6_tests();
    lemma_both_placed(rows, contract_suite_7_tests());
    let rows = rows + contract_suite_7_tests();
    lemma_both_placed(rows, contract_suite_8_tests());
    let rows = rows + contract_suite_8_tests();
    lemma_both_placed(rows, contract_suite_9_tests());
    let rows = rows + contract_suite_9_tests();
    lemma_both_placed(rows, contract_suite_10_tests());
    let rows = rows + contract_suite_10_tests();
    lemma_both_placed(rows, contract_suite_11_tests());
    let rows = rows + contract_suite_11_tests();
    lemma_both_placed(rows, core_tests());
    let rows = rows + core_tests();
    lemma_both_placed(rows, replication_tests());
    let rows = rows + replication_tests();
    lemma_both_placed(rows, election_tests());
    let rows = rows + election_tests();
    lemma_both_placed(rows, fencing_tests());
    let rows = rows + fencing_tests();
    lemma_both_placed(rows, invariant_tests());
    let rows = rows + invariant_tests();
    lemma_both_placed(rows, metamorphic_tests());
    let rows = rows + metamorphic_tests();
    lemma_both_placed(rows, edge_tests());
    let rows = rows + edge_tests();
    lemma_both_placed(rows, reproducers_tests());
    let rows = rows + reproducers_tests();
    lemma_both_placed(rows, correctness_tests());
    let rows = rows + correctness_tests();
    lemma_both_placed(rows, durability_tests());
    let rows = rows + durability_tests();
    lemma_both_placed(rows, performance_tests());
    let rows = rows + performance_tests();
    lemma_both_placed(rows, operations_tests());
    let rows = rows + operations_tests();
    lemma_both_placed(rows, security_tests());
    let rows = rows + security_tests();
    lemma_both_placed(rows, schema_tests());
    let rows = rows + schema_tests();
    lemma_both_placed(rows, compaction_tests());
    let rows = rows + compaction_tests();
    lemma_both_placed(rows, reproductions_tests());
    let rows = rows + reproductions_tests();
    lemma_both_placed(rows, debug_tests());
    let rows = rows + debug_tests();
    assert(rows == catalog());
    assert(row_of(mark(rows[i].name)) == i);
    assert(row_of(mark(rows[j].name)) == j);
}

} // verus!
