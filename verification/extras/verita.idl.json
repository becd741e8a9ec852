{
  "address": "2BjVNW3YL7LigwWvRCWgYrxqZjWYwp8RJmLt2S1k9e5c",
  "metadata": {
    "name": "verita",
    "version": "0.1.0",
    "spec": "0.1.0"
  },
  "instructions": [
    {
      "name": "advance_clock",
      "docs": [
        "Demo builds only: sets the absolute clock offset."
      ],
      "discriminator": [
        52,
        57,
        147,
        111,
        56,
        227,
        33,
        127
      ],
      "accounts": [
        {
          "name": "demo_authority",
          "signer": true
        },
        {
          "name": "vault",
          "writable": true
        }
      ],
      "args": [
        {
          "name": "args",
          "type": {
            "defined": {
              "name": "AdvanceClockArgs"
            }
          }
        }
      ]
    },
    {
      "name": "attest_cpc",
      "docs": [
        "Certifier releases the first moiety."
      ],
      "discriminator": [
        157,
        253,
        153,
        142,
        191,
        227,
        225,
        105
      ],
      "accounts": [
        {
          "name": "certifier",
          "signer": true
        },
        {
          "name": "vault",
          "writable": true
        },
        {
          "name": "subcontractor",
          "writable": true
        }
      ],
      "args": []
    },
    {
      "name": "claim_release",
      "docs": [
        "Subcontractor releases everything undisputed once the backstop has passed."
      ],
      "discriminator": [
        32,
        49,
        104,
        71,
        174,
        25,
        58,
        118
      ],
      "accounts": [
        {
          "name": "subcontractor",
          "writable": true,
          "signer": true
        },
        {
          "name": "vault",
          "writable": true
        },
        {
          "name": "rent_payer"
        }
      ],
      "args": []
    },
    {
      "name": "close_vault",
      "docs": [
        "Permissionless finalizer once all retention has been released."
      ],
      "discriminator": [
        141,
        103,
        17,
        126,
        72,
        75,
        29,
        29
      ],
      "accounts": [
        {
          "name": "rent_payer",
          "writable": true
        },
        {
          "name": "vault",
          "writable": true
        }
      ],
      "args": []
    },
    {
      "name": "fund_vault",
      "docs": [
        "Main contractor deposits the retention; the rent payer fronts the account rent."
      ],
      "discriminator": [
        26,
        33,
        207,
        242,
        119,
        108,
        134,
        73
      ],
      "accounts": [
        {
          "name": "main_contractor",
          "writable": true,
          "signer": true
        },
        {
          "name": "rent_payer",
          "writable": true,
          "signer": true
        },
        {
          "name": "vault",
          "writable": true
        },
        {
          "name": "system_program",
          "address": "11111111111111111111111111111111"
        }
      ],
      "args": [
        {
          "name": "args",
          "type": {
            "defined": {
              "name": "FundVaultArgs"
            }
          }
        }
      ]
    }
  ],
  "accounts": [
    {
      "name": "RetentionVault",
      "discriminator": [
        140,
        47,
        175,
        233,
        108,
        17,
        177,
        154
      ]
    }
  ],
  "errors": [
    {
      "code": 6000,
      "name": "AlreadyFunded",
      "msg": "This vault is already funded"
    },
    {
      "code": 6001,
      "name": "Unauthorized",
      "msg": "Your wallet isn't authorized for this action"
    },
    {
      "code": 6002,
      "name": "BackstopNotReached",
      "msg": "Retention isn't claimable yet — DLP hasn't expired"
    },
    {
      "code": 6003,
      "name": "NothingToClaim",
      "msg": "Nothing left to claim"
    },
    {
      "code": 6004,
      "name": "AlreadyAttested",
      "msg": "First moiety already certified"
    },
    {
      "code": 6005,
      "name": "NonzeroResidual",
      "msg": "Vault still holds funds; can't close"
    },
    {
      "code": 6006,
      "name": "AlreadyClosed",
      "msg": "Vault is already closed"
    },
    {
      "code": 6007,
      "name": "VaultNotClaimable",
      "msg": "Vault cannot be claimed in current state"
    },
    {
      "code": 6008,
      "name": "ProjectIdTooLong",
      "msg": "Project ID exceeds maximum length of 64 bytes"
    },
    {
      "code": 6009,
      "name": "InvalidAmount",
      "msg": "Retention amount must be greater than zero"
    },
    {
      "code": 6010,
      "name": "InvalidReleaseSchedule",
      "msg": "Release schedule must be between 1 and 10000 basis points"
    },
    {
      "code": 6011,
      "name": "RentExemptViolation",
      "msg": "Release would strand the vault below its rent-exempt minimum"
    },
    {
      "code": 6012,
      "name": "MathOverflow",
      "msg": "Arithmetic overflow or underflow"
    },
    {
      "code": 6013,
      "name": "DivisionByZero",
      "msg": "Division by zero"
    },
    {
      "code": 6014,
      "name": "FreezeAfterCutoff",
      "msg": "Defect window has closed"
    },
    {
      "code": 6015,
      "name": "AggregateCapExceeded",
      "msg": "Freeze exceeds the aggregate cap"
    },
    {
      "code": 6016,
      "name": "TooManyFreezes",
      "msg": "Too many active freezes"
    }
  ],
  "types": [
    {
      "name": "AdvanceClockArgs",
      "type": {
        "kind": "struct",
        "fields": [
          {
            "name": "new_offset",
            "type": "i64"
          }
        ]
      }
    },
    {
      "name": "FundVaultArgs",
      "type": {
        "kind": "struct",
        "fields": [
          {
            "name": "project_id",
            "type": "string"
          },
          {
            "name": "amount",
            "type": "u64"
          },
          {
            "name": "practical_completion_ts",
            "type": "i64"
          },
          {
            "name": "dlp_days",
            "type": "u32"
          },
          {
            "name": "grace_days",
            "type": "u32"
          },
          {
            "name": "release_schedule_bps",
            "type": "u16"
          },
          {
            "name": "subcontractor",
            "type": "pubkey"
          },
          {
            "name": "certifier",
            "type": "pubkey"
          },
          {
            "name": "adjudicator",
            "type": "pubkey"
          },
          {
            "name": "demo_authority",
            "type": "pubkey"
          }
        ]
      }
    },
    {
      "name": "RetentionVault",
      "type": {
        "kind": "struct",
        "fields": [
          {
            "name": "main_contractor",
            "type": "pubkey"
          },
          {
            "name": "subcontractor",
            "type": "pubkey"
          },
          {
            "name": "certifier",
            "type": "pubkey"
          },
          {
            "name": "adjudicator",
            "type": "pubkey"
          },
          {
            "name": "demo_authority",
            "type": "pubkey"
          },
          {
            "name": "rent_payer",
            "type": "pubkey"
          },
          {
            "name": "mint",
            "type": "pubkey"
          },
          {
            "name": "project_id",
            "type": "string"
          },
          {
            "name": "amount",
            "type": "u64"
          },
          {
            "name": "released_cumulative",
            "type": "u64"
          },
          {
            "name": "practical_completion_ts",
            "type": "i64"
          },
          {
            "name": "dlp_days",
            "type": "u32"
          },
          {
            "name": "grace_days",
            "type": "u32"
          },
          {
            "name": "release_schedule_bps",
            "type": "u16"
          },
          {
            "name": "cpc_attested",
            "type": "bool"
          },
          {
            "name": "aggregate_frozen",
            "type": "u64"
          },
          {
            "name": "active_freeze_count",
            "type": "u16"
          },
          {
            "name": "aggregate_freeze_cap",
            "type": "u64"
          },
          {
            "name": "max_active_freezes",
            "type": "u16"
          },
          {
            "name": "clock_offset",
            "type": "i64"
          },
          {
            "name": "status",
            "type": "u8"
          },
          {
            "name": "bump",
            "type": "u8"
          }
        ]
      }
    }
  ]
}
